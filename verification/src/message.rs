use vstd::prelude::*;
use vstd::string::StrSliceExecFns;

verus! {

/// A frame exchanged with a remote peer over the collaboration socket.
#[derive(Clone, Debug)]
pub enum Message {
    /// An encoded document or awareness update.
    Binary(Vec<u8>),
    /// The session ends.
    Close,
    /// Keep-alive probe.
    Ping,
}

/// The mathematical value of a [`Message`].
pub enum MessageView {
    Binary(Seq<u8>),
    Close,
    Ping,
}

impl View for Message {
    type V = MessageView;

    open spec fn view(&self) -> MessageView {
        match self {
            Message::Binary(data) => MessageView::Binary(data@),
            Message::Close => MessageView::Close,
            Message::Ping => MessageView::Ping,
        }
    }
}

/// Copies a byte buffer.
pub fn copy_bytes(data: &Vec<u8>) -> (out: Vec<u8>)
    ensures
        out@ == data@,
{
    let mut out: Vec<u8> = Vec::new();
    let mut i: usize = 0;
    while i < data.len()
        invariant
            i <= data.len(),
            out@ == data@.take(i as int),
        decreases data.len() - i,
    {
        out.push(data[i]);
        i = i + 1;
        assert(out@ =~= data@.take(i as int));
    }
    assert(data@.take(data.len() as int) =~= data@);
    out
}

/// Whether two strings hold the same characters.
pub fn same_text(a: &str, b: &str) -> (equal: bool)
    ensures
        equal == (a@ == b@),
{
    let n = a.unicode_len();
    if n != b.unicode_len() {
        return false;
    }
    let mut i: usize = 0;
    while i < n
        invariant
            n == a@.len(),
            n == b@.len(),
            i <= n,
            forall|j: int| 0 <= j < i ==> a@[j] == b@[j],
        decreases n - i,
    {
        if a.get_char(i) != b.get_char(i) {
            return false;
        }
        i = i + 1;
    }
    assert(a@ =~= b@);
    true
}

} // verus!
