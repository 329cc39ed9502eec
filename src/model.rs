use vstd::prelude::*;
use crate::command::Cmd;
use crate::reply::{all_text_pairs, all_texts, pairs_of_items, pairs_of_pairs, Answer, Fault};

verus! {

/// What a key holds on the server.
pub enum Data {
    Text(Seq<char>),
    Fields(Map<Seq<char>, Seq<char>>),
}

/// A key's value, and the instant (in seconds) at which it expires, if any.
pub struct Entry {
    pub data: Data,
    pub expires: Option<int>,
}

/// The contents of the server's logical database.
pub struct Store {
    pub entries: Map<Seq<char>, Entry>,
}

/// Whether `k` holds a value at instant `now`: an entry whose expiry, if
/// it has one, lies in the future.
pub open spec fn live(s: Store, now: int, k: Seq<char>) -> bool {
    s.entries.contains_key(k) && match s.entries[k].expires {
        Some(t) => now < t,
        None => true,
    }
}

/// Whether `k` holds a string at instant `now`.
pub open spec fn holds_text(s: Store, now: int, k: Seq<char>) -> bool {
    live(s, now, k) && s.entries[k].data is Text
}

/// Whether `k` holds a hash at instant `now`.
pub open spec fn holds_fields(s: Store, now: int, k: Seq<char>) -> bool {
    live(s, now, k) && s.entries[k].data is Fields
}

/// The fields of the hash at `k`; none where `k` holds no hash.
pub open spec fn fields_at(s: Store, now: int, k: Seq<char>) -> Map<Seq<char>, Seq<char>> {
    if holds_fields(s, now, k) {
        s.entries[k].data->Fields_0
    } else {
        Map::empty()
    }
}

/// The seconds left before `k` expires, where it holds a value with an expiry.
pub open spec fn remaining_ttl(s: Store, now: int, k: Seq<char>) -> Option<int> {
    if live(s, now, k) && s.entries[k].expires is Some {
        Some(s.entries[k].expires->Some_0 - now)
    } else {
        None
    }
}

/// How a command at instant `now` changes the store.
pub open spec fn apply(s: Store, now: int, c: Cmd) -> Store {
    match c {
        Cmd::SetValue { key, value } => Store {
            entries: s.entries.insert(key, Entry { data: Data::Text(value), expires: None }),
        },
        Cmd::Expire { key, seconds } => if !live(s, now, key) {
            s
        } else if seconds > 0 {
            Store {
                entries: s.entries.insert(
                    key,
                    Entry { data: s.entries[key].data, expires: Some(now + seconds) },
                ),
            }
        } else {
            Store { entries: s.entries.remove(key) }
        },
        Cmd::HSet { key, field, value } => if holds_text(s, now, key) {
            s
        } else if holds_fields(s, now, key) {
            Store {
                entries: s.entries.insert(
                    key,
                    Entry {
                        data: Data::Fields(fields_at(s, now, key).insert(field, value)),
                        expires: s.entries[key].expires,
                    },
                ),
            }
        } else {
            Store {
                entries: s.entries.insert(
                    key,
                    Entry { data: Data::Fields(Map::empty().insert(field, value)), expires: None },
                ),
            }
        },
        Cmd::HDel { key, field } => if !holds_fields(s, now, key) {
            s
        } else if fields_at(s, now, key).remove(field).len() == 0 {
            Store { entries: s.entries.remove(key) }
        } else {
            Store {
                entries: s.entries.insert(
                    key,
                    Entry {
                        data: Data::Fields(fields_at(s, now, key).remove(field)),
                        expires: s.entries[key].expires,
                    },
                ),
            }
        },
        Cmd::Get { .. } => s,
        Cmd::HGet { .. } => s,
        Cmd::HGetAll { .. } => s,
    }
}

/// Applies commands in order, all at instant `now`.
pub open spec fn run(s: Store, now: int, cs: Seq<Cmd>) -> Store
    decreases cs.len(),
{
    if cs.len() == 0 {
        s
    } else {
        run(apply(s, now, cs[0]), now, cs.drop_first())
    }
}

/// Whether a list of (field, value) pairs lists exactly the fields of `m`.
pub open spec fn lists(p: Seq<(Seq<char>, Seq<char>)>, m: Map<Seq<char>, Seq<char>>) -> bool {
    &&& forall|i: int| 0 <= i < p.len() ==> m.contains_key((#[trigger] p[i]).0) && m[p[i].0] == p[i].1
    &&& forall|f: Seq<char>| #[trigger] m.contains_key(f) ==> exists|i: int| 0 <= i < p.len() && (#[trigger] p[i]).0 == f
}

/// Whether `a` is a reply that lists the fields of `m`, in any order: flat,
/// or as a map.
pub open spec fn lists_reply(a: Answer, m: Map<Seq<char>, Seq<char>>) -> bool {
    match a {
        Answer::Items(t) => t.len() % 2 == 0 && all_texts(t) && lists(pairs_of_items(t), m),
        Answer::Pairs(t) => all_text_pairs(t) && lists(pairs_of_pairs(t), m),
        _ => false,
    }
}

/// Whether `a` is a reply that the server may give to `c` at instant `now`.
pub open spec fn answers(s: Store, now: int, c: Cmd, a: Answer) -> bool {
    match c {
        Cmd::SetValue { .. } => a == Answer::Okay,
        Cmd::Expire { key, .. } => a == Answer::Int(if live(s, now, key) { 1 } else { 0 }),
        Cmd::HSet { key, field, .. } => if holds_text(s, now, key) {
            a == Answer::Fault(Fault::WrongType)
        } else {
            a == Answer::Int(if fields_at(s, now, key).contains_key(field) { 0 } else { 1 })
        },
        Cmd::HDel { key, field } => if holds_text(s, now, key) {
            a == Answer::Fault(Fault::WrongType)
        } else {
            a == Answer::Int(if fields_at(s, now, key).contains_key(field) { 1 } else { 0 })
        },
        Cmd::Get { key } => if holds_text(s, now, key) {
            a == Answer::Text(s.entries[key].data->Text_0)
        } else if holds_fields(s, now, key) {
            a == Answer::Fault(Fault::WrongType)
        } else {
            a == Answer::Nil
        },
        Cmd::HGet { key, field } => if holds_text(s, now, key) {
            a == Answer::Fault(Fault::WrongType)
        } else if fields_at(s, now, key).contains_key(field) {
            a == Answer::Text(fields_at(s, now, key)[field])
        } else {
            a == Answer::Nil
        },
        Cmd::HGetAll { key } => if holds_text(s, now, key) {
            a == Answer::Fault(Fault::WrongType)
        } else {
            lists_reply(a, fields_at(s, now, key))
        },
    }
}

} // verus!
