use vstd::prelude::*;
use crate::command::{set_str_cmds, Cmd};
use crate::error::CacheError;
use crate::model::{answers, apply, fields_at, holds_fields, holds_text, lists, live, remaining_ttl, run, Store};
use crate::reply::{ack_of, fields_of, string_of, Answer};

verus! {

proof fn lemma_run_set_str(s: Store, now: int, k: Seq<char>, v: Seq<char>, ttl: int)
    ensures
        ttl <= 0 ==> run(s, now, set_str_cmds(k, v, ttl)) == apply(s, now, Cmd::SetValue { key: k, value: v }),
        ttl > 0 ==> run(s, now, set_str_cmds(k, v, ttl)) == apply(
            apply(s, now, Cmd::SetValue { key: k, value: v }),
            now,
            Cmd::Expire { key: k, seconds: ttl },
        ),
{
    let cs = set_str_cmds(k, v, ttl);
    let s1 = apply(s, now, cs[0]);
    assert(run(s, now, cs) == run(s1, now, cs.drop_first()));
    if ttl > 0 {
        let rest = cs.drop_first();
        assert(rest.drop_first().len() == 0);
        assert(run(s1, now, rest) == run(apply(s1, now, rest[0]), now, rest.drop_first()));
    } else {
        assert(cs.drop_first().len() == 0);
    }
}

/// Storing a string without a positive time to live, then reading the key
/// at the same instant, yields the stored string.
pub proof fn law_set_then_get(s: Store, now: int, k: Seq<char>, v: Seq<char>, ttl: int, a: Answer)
    requires
        ttl <= 0,
        answers(run(s, now, set_str_cmds(k, v, ttl)), now, Cmd::Get { key: k }, a),
    ensures
        string_of(a) == Ok::<Seq<char>, CacheError>(v),
{
    lemma_run_set_str(s, now, k, v, ttl);
}

/// Right after a string is stored with a positive time to live, the key has
/// exactly that many seconds left: more than zero, and no more than asked.
pub proof fn law_set_with_ttl(s: Store, now: int, k: Seq<char>, v: Seq<char>, ttl: int)
    requires
        ttl > 0,
    ensures
        remaining_ttl(run(s, now, set_str_cmds(k, v, ttl)), now, k) == Some(ttl),
{
    lemma_run_set_str(s, now, k, v, ttl);
}

/// A string stored with a positive time to live reads back until that many
/// seconds have passed, and from then on reads as absent.
pub proof fn law_set_then_expire(
    s: Store,
    now: int,
    later: int,
    k: Seq<char>,
    v: Seq<char>,
    ttl: int,
    a: Answer,
)
    requires
        ttl > 0,
        now <= later,
        answers(run(s, now, set_str_cmds(k, v, ttl)), later, Cmd::Get { key: k }, a),
    ensures
        later < now + ttl ==> string_of(a) == Ok::<Seq<char>, CacheError>(v),
        later >= now + ttl ==> string_of(a) == Err::<Seq<char>, CacheError>(CacheError::NotFound),
{
    lemma_run_set_str(s, now, k, v, ttl);
}

/// Once a field of a hash is set, reading that field yields its value, and
/// reading the whole hash yields the pair, with no other value for the field.
pub proof fn law_hset_then_read(
    s: Store,
    now: int,
    k: Seq<char>,
    f: Seq<char>,
    v: Seq<char>,
    h: Answer,
    a: Answer,
    b: Answer,
)
    requires
        answers(s, now, Cmd::HSet { key: k, field: f, value: v }, h),
        ack_of(h) is Ok,
        answers(apply(s, now, Cmd::HSet { key: k, field: f, value: v }), now, Cmd::HGet { key: k, field: f }, a),
        answers(apply(s, now, Cmd::HSet { key: k, field: f, value: v }), now, Cmd::HGetAll { key: k }, b),
    ensures
        string_of(a) == Ok::<Seq<char>, CacheError>(v),
        fields_of(b) is Ok,
        exists|i: int| 0 <= i < fields_of(b)->Ok_0.len() && (#[trigger] fields_of(b)->Ok_0[i]) == (f, v),
        forall|i: int| 0 <= i < fields_of(b)->Ok_0.len() && (#[trigger] fields_of(b)->Ok_0[i]).0 == f
            ==> fields_of(b)->Ok_0[i].1 == v,
{
    let s2 = apply(s, now, Cmd::HSet { key: k, field: f, value: v });
    assert(!holds_text(s, now, k));
    assert(holds_fields(s2, now, k));
    let m = fields_at(s2, now, k);
    assert(m.contains_key(f) && m[f] == v);
    let p = fields_of(b)->Ok_0;
    assert(lists(p, m));
    let i = choose|i: int| 0 <= i < p.len() && (#[trigger] p[i]).0 == f;
    assert(p[i] == (f, v));
}

/// Reading all fields of a key that holds nothing yields no fields, and no
/// error.
pub proof fn law_hgetall_of_missing(s: Store, now: int, k: Seq<char>, b: Answer)
    requires
        !live(s, now, k),
        answers(s, now, Cmd::HGetAll { key: k }, b),
    ensures
        fields_of(b) == Ok::<Seq<(Seq<char>, Seq<char>)>, CacheError>(Seq::empty()),
{
    let p = fields_of(b)->Ok_0;
    assert(lists(p, Map::empty()));
    if p.len() > 0 {
        assert(Map::<Seq<char>, Seq<char>>::empty().contains_key(p[0].0));
    }
    assert(p =~= Seq::empty());
}

/// Deleting a field of a key that holds no string succeeds, whether or not
/// the field or the key exists, and the field then reads as absent.
pub proof fn law_hdel_then_hget(s: Store, now: int, k: Seq<char>, f: Seq<char>, h: Answer, a: Answer)
    requires
        !holds_text(s, now, k),
        answers(s, now, Cmd::HDel { key: k, field: f }, h),
        answers(apply(s, now, Cmd::HDel { key: k, field: f }), now, Cmd::HGet { key: k, field: f }, a),
    ensures
        ack_of(h) == Ok::<(), CacheError>(()),
        string_of(a) == Err::<Seq<char>, CacheError>(CacheError::NotFound),
{
    let s2 = apply(s, now, Cmd::HDel { key: k, field: f });
    assert(!holds_text(s2, now, k));
    assert(!fields_at(s2, now, k).contains_key(f));
}

/// Reading a key that holds a hash as a string fails as a mismatch of types.
pub proof fn law_get_of_hash(s: Store, now: int, k: Seq<char>, a: Answer)
    requires
        holds_fields(s, now, k),
        answers(s, now, Cmd::Get { key: k }, a),
    ensures
        string_of(a) == Err::<Seq<char>, CacheError>(CacheError::Decode),
{
}

} // verus!
