use vstd::prelude::*;

verus! {

/// How a buffer holds the serialized bytes it presents to the native
/// import call: as a view of data the caller keeps alive, or as a copy
/// with no outside lifetime dependency.
enum BufData<'a> {
    Viewed(&'a str),
    Copied(String),
}

/// The serialized string data handed to the native graph import, either
/// borrowed for the duration of the call or copied to be owned
/// independently. The native bookkeeping handle that carries these bytes
/// across the boundary lives with the runtime glue; what this layer owns
/// and states is the content itself.
pub struct StrBuffer<'a> {
    data: BufData<'a>,
}

impl<'a> View for StrBuffer<'a> {
    type V = Seq<char>;

    closed spec fn view(&self) -> Seq<char> {
        match self.data {
            BufData::Viewed(s) => s@,
            BufData::Copied(s) => s@,
        }
    }
}

impl<'a> StrBuffer<'a> {
    /// A zero-copy buffer over the given data, which must stay alive and
    /// unchanged for as long as the buffer does; the borrow enforces that.
    pub fn new(data: &'a str) -> (r: StrBuffer<'a>)
        ensures
            r@ == data@,
    {
        StrBuffer { data: BufData::Viewed(data) }
    }

    /// A buffer that copies the given data, so the result depends on no
    /// outside lifetime.
    pub fn new_internal(data: &str) -> (r: StrBuffer<'static>)
        ensures
            r@ == data@,
    {
        StrBuffer { data: BufData::Copied(data.to_owned()) }
    }

    /// The bytes this buffer presents to the native import call.
    pub fn as_str(&self) -> (r: &str)
        ensures
            r@ == self@,
    {
        match &self.data {
            BufData::Viewed(s) => s,
            BufData::Copied(s) => s.as_str(),
        }
    }
}

} // verus!
