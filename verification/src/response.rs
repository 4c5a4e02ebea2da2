use vstd::prelude::*;

verus! {

/// The value of one observability attribute: free text, or a counter value
/// kept as the integer it is. The host renders integers into its wire format
/// outside the library.
#[derive(Clone, Debug)]
pub enum AttributeValue {
    Text(String),
    Int(i32),
}

/// Model of an [`AttributeValue`].
pub enum AttributeValueView {
    Text(Seq<char>),
    Int(i32),
}

impl View for AttributeValue {
    type V = AttributeValueView;

    open spec fn view(&self) -> AttributeValueView {
        match self {
            AttributeValue::Text(s) => AttributeValueView::Text(s@),
            AttributeValue::Int(i) => AttributeValueView::Int(*i),
        }
    }
}

/// One key/value attribute of a [`Response`].
#[derive(Clone, Debug)]
pub struct Attribute {
    pub key: String,
    pub value: AttributeValue,
}

/// Model of an [`Attribute`].
pub struct AttributeView {
    pub key: Seq<char>,
    pub value: AttributeValueView,
}

impl View for Attribute {
    type V = AttributeView;

    open spec fn view(&self) -> AttributeView {
        AttributeView { key: self.key@, value: self.value@ }
    }
}

/// The acknowledgement an entry point hands back to the host: a list of
/// observability attributes. They are informational only; nothing in the
/// state machine reads them back.
#[derive(Clone, Debug)]
pub struct Response {
    pub attributes: Vec<Attribute>,
}

impl View for Response {
    type V = Seq<AttributeView>;

    open spec fn view(&self) -> Seq<AttributeView> {
        self.attributes@.map_values(|a: Attribute| a@)
    }
}

impl Response {
    /// A response carrying no attributes yet.
    pub fn new() -> (r: Response)
        ensures
            r@ == Seq::<AttributeView>::empty(),
    {
        let r = Response { attributes: Vec::new() };
        proof {
            assert(r@ =~= Seq::<AttributeView>::empty());
        }
        r
    }

    /// Append one attribute, builder style.
    pub fn add_attribute(self, key: &str, value: AttributeValue) -> (r: Response)
        ensures
            r@ == self@.push(AttributeView { key: key@, value: value@ }),
    {
        let ghost target = self@.push(AttributeView { key: key@, value: value@ });
        let mut attributes = self.attributes;
        attributes.push(Attribute { key: String::from_str(key), value });
        let r = Response { attributes };
        proof {
            assert(r@ =~= target);
        }
        r
    }
}

} // verus!
