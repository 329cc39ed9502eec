use vstd::prelude::*;
use crate::error::CacheError;

verus! {

/// An error reply of the server, by what the handle makes of it.
#[derive(Clone, Copy, Debug, PartialEq, Eq, Structural)]
pub enum Fault {
    /// The key holds a value of another kind than the command works on.
    WrongType,
    /// Any other error reply.
    Refused,
}

/// A reply of the server, as far as the handle reads it.
#[derive(Debug, PartialEq, Eq)]
pub enum Reply {
    Nil,
    Okay,
    Int(i64),
    /// A string reply that holds valid UTF-8.
    Text(String),
    Array(Vec<Reply>),
    Entries(Vec<(Reply, Reply)>),
    Fault(Fault),
    /// A reply of any other shape.
    Other,
}

/// What a reply is; of an aggregate, only which of its elements are texts
/// and what they hold.
pub enum Answer {
    Nil,
    Okay,
    Int(int),
    Text(Seq<char>),
    Items(Seq<Option<Seq<char>>>),
    Pairs(Seq<(Option<Seq<char>>, Option<Seq<char>>)>),
    Fault(Fault),
    Other,
}

/// The text that a reply holds, if it is a string reply.
pub open spec fn text_of(r: Reply) -> Option<Seq<char>> {
    match r {
        Reply::Text(s) => Some(s@),
        _ => None,
    }
}

/// The texts of a list of replies.
pub open spec fn texts_of(v: Seq<Reply>) -> Seq<Option<Seq<char>>> {
    v.map_values(|x: Reply| text_of(x))
}

/// The texts of a list of pairs of replies.
pub open spec fn text_pairs_of(v: Seq<(Reply, Reply)>) -> Seq<(Option<Seq<char>>, Option<Seq<char>>)> {
    v.map_values(|p: (Reply, Reply)| (text_of(p.0), text_of(p.1)))
}

impl View for Reply {
    type V = Answer;

    open spec fn view(&self) -> Answer {
        match self {
            Reply::Nil => Answer::Nil,
            Reply::Okay => Answer::Okay,
            Reply::Int(i) => Answer::Int(*i as int),
            Reply::Text(s) => Answer::Text(s@),
            Reply::Array(v) => Answer::Items(texts_of(v@)),
            Reply::Entries(v) => Answer::Pairs(text_pairs_of(v@)),
            Reply::Fault(f) => Answer::Fault(*f),
            Reply::Other => Answer::Other,
        }
    }
}

/// The failure that an error reply stands for.
pub open spec fn fault_error(f: Fault) -> CacheError {
    match f {
        Fault::WrongType => CacheError::Decode,
        Fault::Refused => CacheError::Protocol,
    }
}

/// A command that returns nothing succeeds on any reply but an error reply.
pub open spec fn ack_of(a: Answer) -> Result<(), CacheError> {
    match a {
        Answer::Fault(f) => Err(fault_error(f)),
        _ => Ok(()),
    }
}

/// A reply read as one string: absent on nil, a mismatch on anything but text.
pub open spec fn string_of(a: Answer) -> Result<Seq<char>, CacheError> {
    match a {
        Answer::Text(s) => Ok(s),
        Answer::Nil => Err(CacheError::NotFound),
        Answer::Fault(f) => Err(fault_error(f)),
        _ => Err(CacheError::Decode),
    }
}

/// Whether every element is a text.
pub open spec fn all_texts(t: Seq<Option<Seq<char>>>) -> bool {
    forall|i: int| 0 <= i < t.len() ==> (#[trigger] t[i]) is Some
}

/// A flat list of texts read as field and value, one after the other.
pub open spec fn pairs_of_items(t: Seq<Option<Seq<char>>>) -> Seq<(Seq<char>, Seq<char>)> {
    Seq::new((t.len() / 2) as nat, |i: int| (t[2 * i]->Some_0, t[2 * i + 1]->Some_0))
}

/// Whether both sides of every pair are texts.
pub open spec fn all_text_pairs(t: Seq<(Option<Seq<char>>, Option<Seq<char>>)>) -> bool {
    forall|i: int| 0 <= i < t.len() ==> (#[trigger] t[i]).0 is Some && t[i].1 is Some
}

/// The texts of a list of pairs.
pub open spec fn pairs_of_pairs(t: Seq<(Option<Seq<char>>, Option<Seq<char>>)>) -> Seq<(Seq<char>, Seq<char>)> {
    t.map_values(|p: (Option<Seq<char>>, Option<Seq<char>>)| (p.0->Some_0, p.1->Some_0))
}

/// A reply read as the fields of a hash, as (field, value) pairs: a flat
/// array of an even number of texts, or a map from texts to texts. Nil reads
/// as no fields.
pub open spec fn fields_of(a: Answer) -> Result<Seq<(Seq<char>, Seq<char>)>, CacheError> {
    match a {
        Answer::Nil => Ok(Seq::empty()),
        Answer::Items(t) => if t.len() % 2 == 0 && all_texts(t) {
            Ok(pairs_of_items(t))
        } else {
            Err(CacheError::Decode)
        },
        Answer::Pairs(t) => if all_text_pairs(t) {
            Ok(pairs_of_pairs(t))
        } else {
            Err(CacheError::Decode)
        },
        Answer::Fault(f) => Err(fault_error(f)),
        _ => Err(CacheError::Decode),
    }
}

/// The views of a list of string pairs.
pub open spec fn pairs_view(v: Seq<(String, String)>) -> Seq<(Seq<char>, Seq<char>)> {
    v.map_values(|p: (String, String)| (p.0@, p.1@))
}

fn fault_to_error(f: Fault) -> (e: CacheError)
    ensures
        e == fault_error(f),
{
    match f {
        Fault::WrongType => CacheError::Decode,
        Fault::Refused => CacheError::Protocol,
    }
}

/// Reads the reply to a command that returns nothing.
pub fn decode_ack(r: &Reply) -> (out: Result<(), CacheError>)
    ensures
        out == ack_of(r@),
{
    match r {
        Reply::Fault(f) => Err(fault_to_error(*f)),
        _ => Ok(()),
    }
}

/// Reads the reply to a command that returns one string.
pub fn decode_string(r: &Reply) -> (out: Result<String, CacheError>)
    ensures
        out matches Ok(s) ==> string_of(r@) == Ok::<Seq<char>, CacheError>(s@),
        out matches Err(e) ==> string_of(r@) == Err::<Seq<char>, CacheError>(e),
{
    match r {
        Reply::Text(s) => Ok(s.clone()),
        Reply::Nil => Err(CacheError::NotFound),
        Reply::Fault(f) => Err(fault_to_error(*f)),
        _ => Err(CacheError::Decode),
    }
}

/// Reads the reply to a command that returns the fields of a hash.
pub fn decode_fields(r: &Reply) -> (out: Result<Vec<(String, String)>, CacheError>)
    ensures
        out matches Ok(v) ==> fields_of(r@) == Ok::<Seq<(Seq<char>, Seq<char>)>, CacheError>(pairs_view(v@)),
        out matches Err(e) ==> fields_of(r@) == Err::<Seq<(Seq<char>, Seq<char>)>, CacheError>(e),
{
    match r {
        Reply::Nil => {
            let v: Vec<(String, String)> = Vec::new();
            assert(pairs_view(v@) =~= Seq::empty());
            Ok(v)
        },
        Reply::Array(items) => {
            let ghost t = texts_of(items@);
            if items.len() % 2 != 0 {
                return Err(CacheError::Decode);
            }
            let mut out: Vec<(String, String)> = Vec::new();
            let mut i: usize = 0;
            while i < items.len() / 2
                invariant
                    t == texts_of(items@),
                    r@ == Answer::Items(t),
                    items.len() % 2 == 0,
                    i <= items.len() / 2,
                    out@.len() == i,
                    forall|j: int| 0 <= j < 2 * i ==> (#[trigger] t[j]) is Some,
                    forall|j: int| 0 <= j < i ==> pairs_view(out@)[j] == pairs_of_items(t)[j],
                decreases items.len() / 2 - i,
            {
                let a = &items[2 * i];
                let b = &items[2 * i + 1];
                match (a, b) {
                    (Reply::Text(f), Reply::Text(x)) => {
                        out.push((f.clone(), x.clone()));
                        assert(t[2 * i as int] is Some && t[2 * i + 1] is Some);
                    },
                    _ => {
                        assert(t[2 * i as int] is None || t[2 * i + 1] is None);
                        assert(t.len() == items.len());
                        assert(!all_texts(t));
                        return Err(CacheError::Decode);
                    },
                }
                i = i + 1;
            }
            assert(all_texts(t));
            assert(pairs_view(out@) =~= pairs_of_items(t));
            Ok(out)
        },
        Reply::Entries(entries) => {
            let ghost t = text_pairs_of(entries@);
            let mut out: Vec<(String, String)> = Vec::new();
            let mut i: usize = 0;
            while i < entries.len()
                invariant
                    t == text_pairs_of(entries@),
                    r@ == Answer::Pairs(t),
                    i <= entries.len(),
                    out@.len() == i,
                    forall|j: int| 0 <= j < i ==> (#[trigger] t[j]).0 is Some && t[j].1 is Some,
                    forall|j: int| 0 <= j < i ==> pairs_view(out@)[j] == pairs_of_pairs(t)[j],
                decreases entries.len() - i,
            {
                match &entries[i] {
                    (Reply::Text(f), Reply::Text(x)) => {
                        out.push((f.clone(), x.clone()));
                    },
                    _ => {
                        assert(!((t[i as int]).0 is Some && t[i as int].1 is Some));
                        assert(!all_text_pairs(t));
                        return Err(CacheError::Decode);
                    },
                }
                i = i + 1;
            }
            assert(pairs_view(out@) =~= pairs_of_pairs(t));
            Ok(out)
        },
        Reply::Fault(f) => Err(fault_to_error(*f)),
        _ => Err(CacheError::Decode),
    }
}

} // verus!
