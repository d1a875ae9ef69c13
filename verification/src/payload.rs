use vstd::prelude::*;

verus! {

/// One value in a JSON object payload. The remote API only ever receives
/// flat objects whose members are strings, integers or booleans, so those
/// three shapes are all a payload needs.
#[derive(Debug, Clone, PartialEq, Eq)]
pub enum JsonField {
    Text(String),
    Int(i64),
    Flag(bool),
}

/// The mathematical value of a `JsonField`.
pub enum FieldView {
    Text(Seq<char>),
    Int(int),
    Flag(bool),
}

impl View for JsonField {
    type V = FieldView;

    open spec fn view(&self) -> FieldView {
        match self {
            JsonField::Text(s) => FieldView::Text(s@),
            JsonField::Int(n) => FieldView::Int(*n as int),
            JsonField::Flag(b) => FieldView::Flag(*b),
        }
    }
}

/// A JSON object payload: an ordered list of key/value members, exactly as
/// it will be placed into the request body (or left empty for GET calls).
#[derive(Debug, Clone)]
pub struct Payload {
    pub fields: Vec<(String, JsonField)>,
}

impl View for Payload {
    type V = Seq<(Seq<char>, FieldView)>;

    open spec fn view(&self) -> Seq<(Seq<char>, FieldView)> {
        self.fields@.map_values(|p: (String, JsonField)| (p.0@, p.1@))
    }
}

impl Payload {
    /// The empty object, sent where an operation has no parameters.
    pub fn empty() -> (r: Payload)
        ensures
            r@ == Seq::<(Seq<char>, FieldView)>::empty(),
    {
        let r = Payload { fields: Vec::new() };
        proof {
            assert(r@ =~= Seq::<(Seq<char>, FieldView)>::empty());
        }
        r
    }

    /// Appends a string-valued member.
    pub fn push_text(&mut self, key: &str, value: &str)
        ensures
            final(self)@ == old(self)@.push((key@, FieldView::Text(value@))),
    {
        self.fields.push((key.to_owned(), JsonField::Text(value.to_owned())));
        proof {
            assert(self@ =~= old(self)@.push((key@, FieldView::Text(value@))));
        }
    }

    /// Appends an integer-valued member.
    pub fn push_int(&mut self, key: &str, value: i64)
        ensures
            final(self)@ == old(self)@.push((key@, FieldView::Int(value as int))),
    {
        self.fields.push((key.to_owned(), JsonField::Int(value)));
        proof {
            assert(self@ =~= old(self)@.push((key@, FieldView::Int(value as int))));
        }
    }

    /// Appends a boolean-valued member.
    pub fn push_flag(&mut self, key: &str, value: bool)
        ensures
            final(self)@ == old(self)@.push((key@, FieldView::Flag(value))),
    {
        self.fields.push((key.to_owned(), JsonField::Flag(value)));
        proof {
            assert(self@ =~= old(self)@.push((key@, FieldView::Flag(value))));
        }
    }
}

} // verus!
