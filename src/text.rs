//! Text-styling markers: spaces, line breaks, strong and emphasized content,
//! case conversion and small capitals.
use vstd::prelude::*;

verus! {

/// What `str::to_lowercase` makes of a text.
pub uninterp spec fn lower_of(s: Seq<char>) -> Seq<char>;

/// What `str::to_uppercase` makes of a text.
pub uninterp spec fn upper_of(s: Seq<char>) -> Seq<char>;

/// Relies on `str::to_lowercase`: the lowercase form depends on the text alone.
#[verifier::external_body]
fn to_lower(s: &str) -> (r: String)
    ensures
        r@ == lower_of(s@),
{
    s.to_lowercase()
}

/// Relies on `str::to_uppercase`: the uppercase form depends on the text alone.
#[verifier::external_body]
fn to_upper(s: &str) -> (r: String)
    ensures
        r@ == upper_of(s@),
{
    s.to_uppercase()
}

/// A case transformation on text.
#[derive(Debug, Clone, Copy, PartialEq, Eq, Structural, Hash)]
pub enum Case {
    /// Everything is lowercased.
    Lower,
    /// Everything is uppercased.
    Upper,
}

impl Case {
    pub open spec fn apply_spec(self, s: Seq<char>) -> Seq<char> {
        match self {
            Case::Lower => lower_of(s),
            Case::Upper => upper_of(s),
        }
    }

    /// Applies the case to a string.
    pub fn apply(self, text: &str) -> (r: String)
        ensures
            r@ == self.apply_spec(text@),
    {
        match self {
            Case::Lower => to_lower(text),
            Case::Upper => to_upper(text),
        }
    }
}

/// A toggle that turns on and off alternatingly when folded.
#[derive(Debug, Clone, Copy, PartialEq, Eq, Structural, Hash)]
pub struct Toggle;

impl Toggle {
    /// Folds the toggle onto the outer value: it flips it.
    pub fn fold(self, outer: bool) -> (r: bool)
        ensures
            r == !outer,
    {
        !outer
    }
}

/// How an element behaves next to its neighbours when lines are built.
#[derive(Debug, Clone, Copy, PartialEq, Eq, Structural, Hash)]
pub enum Behaviour {
    /// Weak, with a priority: it collapses with others of its kind.
    Weak(u8),
    /// It removes weak neighbours.
    Destructive,
}

/// Styled text content.
#[derive(Debug)]
pub struct Content {
    pub text: String,
    pub bold: bool,
    pub italic: bool,
    pub case: Option<Case>,
    pub smallcaps: bool,
}

pub struct ContentView {
    pub text: Seq<char>,
    pub bold: bool,
    pub italic: bool,
    pub case: Option<Case>,
    pub smallcaps: bool,
}

impl View for Content {
    type V = ContentView;

    open spec fn view(&self) -> ContentView {
        ContentView {
            text: self.text@,
            bold: self.bold,
            italic: self.italic,
            case: self.case,
            smallcaps: self.smallcaps,
        }
    }
}

impl Content {
    /// Plain text without any style.
    pub fn plain(text: &str) -> (r: Content)
        ensures
            r@ == (ContentView {
                text: text@,
                bold: false,
                italic: false,
                case: None,
                smallcaps: false,
            }),
    {
        Content { text: text.to_owned(), bold: false, italic: false, case: None, smallcaps: false }
    }

    /// A copy of this content.
    pub fn duplicate(&self) -> (r: Content)
        ensures
            r@ == self@,
    {
        Content {
            text: self.text.clone(),
            bold: self.bold,
            italic: self.italic,
            case: self.case,
            smallcaps: self.smallcaps,
        }
    }
}

/// The kind of a value, named in errors.
#[derive(Debug, Clone, Copy, PartialEq, Eq, Structural, Hash)]
pub enum ValueKind {
    Nothing,
    Bool,
    Int,
    Str,
    Content,
}

/// A value handed to a text function.
#[derive(Debug)]
pub enum Value {
    Nothing,
    Bool(bool),
    Int(i64),
    Str(String),
    Content(Content),
}

impl Value {
    pub open spec fn kind_spec(&self) -> ValueKind {
        match self {
            Value::Nothing => ValueKind::Nothing,
            Value::Bool(_) => ValueKind::Bool,
            Value::Int(_) => ValueKind::Int,
            Value::Str(_) => ValueKind::Str,
            Value::Content(_) => ValueKind::Content,
        }
    }

    /// The kind of this value.
    pub fn kind(&self) -> (r: ValueKind)
        ensures
            r == self.kind_spec(),
    {
        match self {
            Value::Nothing => ValueKind::Nothing,
            Value::Bool(_) => ValueKind::Bool,
            Value::Int(_) => ValueKind::Int,
            Value::Str(_) => ValueKind::Str,
            Value::Content(_) => ValueKind::Content,
        }
    }
}

/// A text function was given neither a string nor content.
#[derive(Debug, Clone, Copy, PartialEq, Eq, Structural, Hash)]
pub struct ExpectedStrOrContent {
    pub found: ValueKind,
}

/// A space between words.
#[derive(Debug, Clone, Copy, PartialEq, Eq, Structural, Hash)]
pub struct SpaceNode;

impl SpaceNode {
    pub fn construct() -> (r: SpaceNode) {
        SpaceNode
    }

    /// A space is weak with priority two.
    pub fn behaviour(&self) -> (r: Behaviour)
        ensures
            r == Behaviour::Weak(2),
    {
        Behaviour::Weak(2)
    }
}

/// A line break.
#[derive(Debug, Clone, Copy, PartialEq, Eq, Structural, Hash)]
pub struct LinebreakNode {
    pub justify: bool,
}

impl LinebreakNode {
    /// A line break, justified only where asked for.
    pub fn construct(justify: Option<bool>) -> (r: LinebreakNode)
        ensures
            r.justify == (justify == Some(true)),
    {
        let justify = match justify {
            Some(j) => j,
            None => false,
        };
        LinebreakNode { justify }
    }

    /// A line break removes weak neighbours.
    pub fn behaviour(&self) -> (r: Behaviour)
        ensures
            r == Behaviour::Destructive,
    {
        Behaviour::Destructive
    }
}

/// Whether a field name is `body`.
fn is_body(name: &str) -> (r: bool)
    ensures
        r == (name@ == "body"@),
{
    let a = name.to_owned();
    let b = "body".to_owned();
    a == b
}

/// Strong content, rendered in boldface by default.
#[derive(Debug)]
pub struct StrongNode(pub Content);

impl StrongNode {
    pub fn construct(body: Content) -> (r: StrongNode)
        ensures
            r.0@ == body@,
    {
        StrongNode(body)
    }

    /// The body under the name `body`; no other field.
    pub fn field(&self, name: &str) -> (r: Option<Value>)
        ensures
            name@ == "body"@ ==> (r matches Some(Value::Content(c)) && c@ == self.0@),
            name@ != "body"@ ==> r is None,
    {
        if is_body(name) {
            Some(Value::Content(self.0.duplicate()))
        } else {
            None
        }
    }

    /// The body with boldness toggled.
    pub fn show(&self) -> (r: Content)
        ensures
            r@ == (ContentView { bold: !self.0.bold, ..self.0@ }),
    {
        let mut c = self.0.duplicate();
        c.bold = Toggle.fold(c.bold);
        c
    }
}

/// Emphasized content, rendered in italics by default.
#[derive(Debug)]
pub struct EmphNode(pub Content);

impl EmphNode {
    pub fn construct(body: Content) -> (r: EmphNode)
        ensures
            r.0@ == body@,
    {
        EmphNode(body)
    }

    /// The body under the name `body`; no other field.
    pub fn field(&self, name: &str) -> (r: Option<Value>)
        ensures
            name@ == "body"@ ==> (r matches Some(Value::Content(c)) && c@ == self.0@),
            name@ != "body"@ ==> r is None,
    {
        if is_body(name) {
            Some(Value::Content(self.0.duplicate()))
        } else {
            None
        }
    }

    /// The body with italics toggled.
    pub fn show(&self) -> (r: Content)
        ensures
            r@ == (ContentView { italic: !self.0.italic, ..self.0@ }),
    {
        let mut c = self.0.duplicate();
        c.italic = Toggle.fold(c.italic);
        c
    }
}

/// Changes the case of a string, or styles content with the case.
pub fn case(which: Case, v: Value) -> (r: Result<Value, ExpectedStrOrContent>)
    ensures
        match v {
            Value::Str(s) => r matches Ok(Value::Str(t)) && t@ == which.apply_spec(s@),
            Value::Content(c) => r matches Ok(Value::Content(d)) && d@ == (ContentView {
                case: Some(which),
                ..c@
            }),
            _ => r == Err::<Value, ExpectedStrOrContent>(
                ExpectedStrOrContent { found: v.kind_spec() },
            ),
        },
{
    let kind = v.kind();
    match v {
        Value::Str(s) => Ok(Value::Str(which.apply(s.as_str()))),
        Value::Content(mut c) => {
            c.case = Some(which);
            Ok(Value::Content(c))
        },
        _ => Err(ExpectedStrOrContent { found: kind }),
    }
}

/// Converts a string or content to lowercase.
pub fn lower(v: Value) -> (r: Result<Value, ExpectedStrOrContent>)
    ensures
        match v {
            Value::Str(s) => r matches Ok(Value::Str(t)) && t@ == lower_of(s@),
            Value::Content(c) => r matches Ok(Value::Content(d)) && d@ == (ContentView {
                case: Some(Case::Lower),
                ..c@
            }),
            _ => r == Err::<Value, ExpectedStrOrContent>(
                ExpectedStrOrContent { found: v.kind_spec() },
            ),
        },
{
    case(Case::Lower, v)
}

/// Converts a string or content to uppercase.
pub fn upper(v: Value) -> (r: Result<Value, ExpectedStrOrContent>)
    ensures
        match v {
            Value::Str(s) => r matches Ok(Value::Str(t)) && t@ == upper_of(s@),
            Value::Content(c) => r matches Ok(Value::Content(d)) && d@ == (ContentView {
                case: Some(Case::Upper),
                ..c@
            }),
            _ => r == Err::<Value, ExpectedStrOrContent>(
                ExpectedStrOrContent { found: v.kind_spec() },
            ),
        },
{
    case(Case::Upper, v)
}

/// Displays content in small capitals.
pub fn smallcaps(body: Content) -> (r: Value)
    ensures
        r matches Value::Content(d) && d@ == (ContentView { smallcaps: true, ..body@ }),
{
    let mut c = body;
    c.smallcaps = true;
    Value::Content(c)
}

} // verus!
