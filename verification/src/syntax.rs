//! Minimal model of the syntax-tree values the rule engine passes around:
//! the immutable tree root and the JSX fragments the bundled rule queries.

use vstd::prelude::*;
use crate::text::TextRange;

verus! {

/// The root of one immutable syntax-tree snapshot. The engine never reads
/// the tree itself; it hands the root to rule hooks and to the suppression
/// capability so they can anchor their edits in the source text.
#[derive(PartialEq, Eq, Debug)]
pub struct SyntaxRoot {
    pub source: String,
}

/// Mathematical value of a tree root.
pub ghost struct SyntaxRootView {
    pub source: Seq<char>,
}

impl View for SyntaxRoot {
    type V = SyntaxRootView;

    open spec fn view(&self) -> SyntaxRootView {
        SyntaxRootView { source: self.source@ }
    }
}

/// The value of a JSX attribute initializer.
#[derive(PartialEq, Eq, Debug)]
pub enum AnyJsxAttributeValue {
    /// A nested tag used as a value.
    AnyJsxTag(String),
    /// A plain string literal; the field holds the inner text without
    /// quotes.
    JsxString(String),
    /// An expression container, reduced here to the number-like expressions
    /// the bundled rule understands.
    JsxExpressionAttributeValue(AnyNumberLikeExpression),
}

/// Mathematical value of an attribute initializer.
pub ghost enum AnyJsxAttributeValueView {
    AnyJsxTag(Seq<char>),
    JsxString(Seq<char>),
    JsxExpressionAttributeValue(AnyNumberLikeExpressionView),
}

impl View for AnyJsxAttributeValue {
    type V = AnyJsxAttributeValueView;

    open spec fn view(&self) -> AnyJsxAttributeValueView {
        match self {
            AnyJsxAttributeValue::AnyJsxTag(t) => AnyJsxAttributeValueView::AnyJsxTag(t@),
            AnyJsxAttributeValue::JsxString(s) => AnyJsxAttributeValueView::JsxString(s@),
            AnyJsxAttributeValue::JsxExpressionAttributeValue(e) => (
            AnyJsxAttributeValueView::JsxExpressionAttributeValue(e@)),
        }
    }
}

/// Subset of expressions supported by the bundled rule: string literals,
/// number literals, and unary expressions.
#[derive(PartialEq, Eq, Debug)]
pub enum AnyNumberLikeExpression {
    /// The inner text of a string literal, without quotes.
    JsStringLiteralExpression(String),
    /// The token text of a number literal.
    JsNumberLiteralExpression(String),
    /// A unary expression: its full text, and whether it is a signed
    /// numeric literal.
    JsUnaryExpression { text: String, is_signed_numeric_literal: bool },
}

/// Mathematical value of a number-like expression.
pub ghost enum AnyNumberLikeExpressionView {
    JsStringLiteralExpression(Seq<char>),
    JsNumberLiteralExpression(Seq<char>),
    JsUnaryExpression { text: Seq<char>, is_signed_numeric_literal: bool },
}

impl View for AnyNumberLikeExpression {
    type V = AnyNumberLikeExpressionView;

    open spec fn view(&self) -> AnyNumberLikeExpressionView {
        match self {
            AnyNumberLikeExpression::JsStringLiteralExpression(s) => (
            AnyNumberLikeExpressionView::JsStringLiteralExpression(s@)),
            AnyNumberLikeExpression::JsNumberLiteralExpression(s) => (
            AnyNumberLikeExpressionView::JsNumberLiteralExpression(s@)),
            AnyNumberLikeExpression::JsUnaryExpression { text, is_signed_numeric_literal } => (
            AnyNumberLikeExpressionView::JsUnaryExpression {
                text: text@,
                is_signed_numeric_literal: *is_signed_numeric_literal,
            }),
        }
    }
}

/// The text a number-like expression stands for, when it has one: literal
/// expressions yield their text, and a unary expression yields its text
/// only when it is a signed numeric literal.
pub open spec fn number_like_value(e: AnyNumberLikeExpressionView) -> Option<Seq<char>> {
    match e {
        AnyNumberLikeExpressionView::JsStringLiteralExpression(s) => Some(s),
        AnyNumberLikeExpressionView::JsNumberLiteralExpression(s) => Some(s),
        AnyNumberLikeExpressionView::JsUnaryExpression { text, is_signed_numeric_literal } => if (
        is_signed_numeric_literal) {
            Some(text)
        } else {
            None
        },
    }
}

impl AnyNumberLikeExpression {
    /// Returns the value of a number-like expression; it returns the
    /// expression text for literal expressions. For unary expressions, it
    /// only returns the value for signed numeric expressions.
    pub fn value(&self) -> (r: Option<String>)
        ensures
            match r {
                Some(s) => number_like_value(self@) == Some(s@),
                None => number_like_value(self@) is None,
            },
    {
        match self {
            AnyNumberLikeExpression::JsStringLiteralExpression(s) => Some(s.clone()),
            AnyNumberLikeExpression::JsNumberLiteralExpression(s) => Some(s.clone()),
            AnyNumberLikeExpression::JsUnaryExpression { text, is_signed_numeric_literal } => {
                if *is_signed_numeric_literal {
                    Some(text.clone())
                } else {
                    None
                }
            },
        }
    }
}

/// One JSX attribute: its name, its source range, its static string value
/// when the parser can see one, and its initializer expression when
/// present.
#[derive(PartialEq, Eq, Debug)]
pub struct JsxAttribute {
    pub name: String,
    pub range: TextRange,
    pub static_value: Option<String>,
    pub initializer: Option<AnyJsxAttributeValue>,
}

/// Mathematical value of a JSX attribute.
pub ghost struct JsxAttributeView {
    pub name: Seq<char>,
    pub range: TextRange,
    pub static_value: Option<Seq<char>>,
    pub initializer: Option<AnyJsxAttributeValueView>,
}

impl View for JsxAttribute {
    type V = JsxAttributeView;

    open spec fn view(&self) -> JsxAttributeView {
        JsxAttributeView {
            name: self.name@,
            range: self.range,
            static_value: match &self.static_value {
                Some(v) => Some(v@),
                None => None,
            },
            initializer: match &self.initializer {
                Some(i) => Some(i@),
                None => None,
            },
        }
    }
}

/// One JSX element as a rule queries it: its tag name when the parser
/// resolved one, whether it is an element (as opposed to a fragment), its
/// source range and its attributes.
#[derive(PartialEq, Eq, Debug)]
pub struct JsxElement {
    pub name: Option<String>,
    pub is_element: bool,
    pub range: TextRange,
    pub attributes: Vec<JsxAttribute>,
}

/// Mathematical value of a JSX element.
pub ghost struct JsxElementView {
    pub name: Option<Seq<char>>,
    pub is_element: bool,
    pub range: TextRange,
    pub attributes: Seq<JsxAttributeView>,
}

impl View for JsxElement {
    type V = JsxElementView;

    open spec fn view(&self) -> JsxElementView {
        JsxElementView {
            name: match &self.name {
                Some(n) => Some(n@),
                None => None,
            },
            is_element: self.is_element,
            range: self.range,
            attributes: self.attributes@.map_values(|a: JsxAttribute| a@),
        }
    }
}

/// The index of the first attribute called `name`, when one exists.
pub open spec fn find_attribute_index(attrs: Seq<JsxAttributeView>, name: Seq<char>) -> Option<
    int,
>
    decreases attrs.len(),
{
    if attrs.len() == 0 {
        None
    } else if attrs[0].name == name {
        Some(0int)
    } else {
        match find_attribute_index(attrs.drop_first(), name) {
            Some(i) => Some(i + 1),
            None => None,
        }
    }
}

/// The first attribute called `name`, when one exists.
pub open spec fn spec_find_attribute(attrs: Seq<JsxAttributeView>, name: Seq<char>) -> Option<
    JsxAttributeView,
> {
    match find_attribute_index(attrs, name) {
        Some(i) => Some(attrs[i]),
        None => None,
    }
}

/// Facts about the first matching index: it is in range, it matches, and
/// nothing before it matches.
pub proof fn lemma_find_attribute_index(attrs: Seq<JsxAttributeView>, name: Seq<char>)
    ensures
        match find_attribute_index(attrs, name) {
            Some(i) => 0 <= i < attrs.len() && attrs[i].name == name && (forall|j: int|
                0 <= j < i ==> attrs[j].name != name),
            None => forall|j: int| 0 <= j < attrs.len() ==> attrs[j].name != name,
        },
    decreases attrs.len(),
{
    if attrs.len() > 0 && attrs[0].name != name {
        let rest = attrs.drop_first();
        lemma_find_attribute_index(rest, name);
        match find_attribute_index(rest, name) {
            Some(i) => {
                assert(attrs[i + 1] == rest[i]);
                assert forall|j: int| 0 <= j < i + 1 implies attrs[j].name != name by {
                    if j > 0 {
                        assert(rest[j - 1] == attrs[j]);
                    }
                }
            },
            None => {
                assert forall|j: int| 0 <= j < attrs.len() implies attrs[j].name != name by {
                    if j > 0 {
                        assert(rest[j - 1] == attrs[j]);
                    }
                }
            },
        }
    }
}

impl JsxElement {
    /// The first attribute with the given name, scanned in source order.
    pub fn find_attribute_by_name(&self, name: &str) -> (r: Option<&JsxAttribute>)
        ensures
            match r {
                Some(a) => spec_find_attribute(self@.attributes, name@) == Some(a@),
                None => spec_find_attribute(self@.attributes, name@) is None,
            },
    {
        proof {
            lemma_find_attribute_index(self@.attributes, name@);
        }
        let needle: String = name.to_owned();
        let mut i: usize = 0;
        while i < self.attributes.len()
            invariant
                i <= self.attributes@.len(),
                needle@ == name@,
                forall|j: int| 0 <= j < i ==> self@.attributes[j].name != name@,
            decreases self.attributes@.len() - i,
        {
            let found = self.attributes[i].name.eq(&needle);
            proof {
                assert(self@.attributes[i as int] == self.attributes@[i as int]@);
                assert(self@.attributes[i as int].name == self.attributes@[i as int].name@);
            }
            if found {
                proof {
                    lemma_find_attribute_index(self@.attributes, name@);
                    let attrs = self@.attributes;
                    match find_attribute_index(attrs, name@) {
                        Some(k) => {
                            if k < i as int {
                                assert(attrs[k].name != name@);
                            }
                            if k > i as int {
                                assert(attrs[i as int].name != name@);
                            }
                            assert(k == i as int);
                        },
                        None => {
                            assert(attrs[i as int].name != name@);
                        },
                    }
                }
                return Some(&self.attributes[i]);
            }
            proof {
                assert(self@.attributes[i as int].name != name@);
            }
            i += 1;
        }
        proof {
            lemma_find_attribute_index(self@.attributes, name@);
        }
        None
    }
}

} // verus!
