use vstd::prelude::*;

use crate::state::{
    add_admin_model, has_admin, lemma_without_ident_push, remove_admin_model, without_ident,
    write_model, RecordModel,
};

verus! {

/// Last write wins: writing `d2` after any earlier write `d1` leaves the
/// record exactly as a single write of `d2` would, the payload read back is
/// exactly `d2`, and the admins are untouched. There is no merge.
pub proof fn lemma_write_overwrites(r: RecordModel, d1: Seq<u8>, d2: Seq<u8>)
    ensures
        write_model(write_model(r, d1), d2) == write_model(r, d2),
        write_model(r, d2).data == d2,
        write_model(r, d2).admins == r.admins,
{
}

/// Writing the same payload twice leaves the record exactly as one write.
pub proof fn lemma_write_idempotent(r: RecordModel, d: Seq<u8>)
    ensures
        write_model(write_model(r, d), d) == write_model(r, d),
{
}

/// Adding an identity that is already an admin changes nothing: neither the
/// order nor the cardinality of the admin list.
pub proof fn lemma_add_admin_idempotent(r: RecordModel, a: Seq<char>)
    requires
        has_admin(r, a),
    ensures
        add_admin_model(r, a) == r,
{
}

/// Membership over a push, in both directions.
proof fn lemma_push_contains(s: Seq<Seq<char>>, x: Seq<char>, b: Seq<char>)
    ensures
        s.push(x).contains(b) <==> (s.contains(b) || b == x),
{
    if s.push(x).contains(b) {
        let i = choose|i: int| 0 <= i < s.push(x).len() && s.push(x)[i] == b;
        if i < s.len() {
            assert(s[i] == b);
        }
    }
    if s.contains(b) {
        let i = choose|i: int| 0 <= i < s.len() && s[i] == b;
        assert(s.push(x)[i] == b);
    }
    assert(s.push(x)[s.len() as int] == x);
}

/// What survives dropping `who`: exactly the entries different from `who`.
proof fn lemma_without_contains(s: Seq<Seq<char>>, who: Seq<char>, b: Seq<char>)
    ensures
        without_ident(s, who).contains(b) <==> (s.contains(b) && b != who),
    decreases s.len(),
{
    reveal(Seq::filter);
    if s.len() == 0 {
    } else {
        let prefix = s.drop_last();
        let x = s.last();
        lemma_without_contains(prefix, who, b);
        lemma_without_ident_push(prefix, x, who);
        assert(prefix.push(x) =~= s);
        lemma_push_contains(prefix, x, b);
        if x != who {
            lemma_push_contains(without_ident(prefix, who), x, b);
        }
    }
}

/// What survives a removal: exactly the admins different from the removed
/// identity, so a removal takes out the named entry and nothing else.
pub proof fn lemma_remove_admin_membership(r: RecordModel, a: Seq<char>, b: Seq<char>)
    ensures
        has_admin(remove_admin_model(r, a), b) <==> (has_admin(r, b) && b != a),
{
    lemma_without_contains(r.admins, a, b);
}

/// Dropping an identity from a list that does not hold it changes nothing.
proof fn lemma_without_absent(s: Seq<Seq<char>>, who: Seq<char>)
    requires
        !s.contains(who),
    ensures
        without_ident(s, who) == s,
    decreases s.len(),
{
    reveal(Seq::filter);
    if s.len() == 0 {
        assert(without_ident(s, who) =~= s);
    } else {
        let prefix = s.drop_last();
        let x = s.last();
        assert(!prefix.contains(who)) by {
            if prefix.contains(who) {
                let i = choose|i: int| 0 <= i < prefix.len() && prefix[i] == who;
                assert(s[i] == who);
            }
        }
        assert(x != who) by {
            assert(s[s.len() - 1] == x);
        }
        lemma_without_absent(prefix, who);
        lemma_without_ident_push(prefix, x, who);
        assert(prefix.push(x) =~= s);
    }
}

/// Removing an identity that is not an admin changes nothing.
pub proof fn lemma_remove_admin_absent(r: RecordModel, a: Seq<char>)
    requires
        !has_admin(r, a),
    ensures
        remove_admin_model(r, a) == r,
{
    lemma_without_absent(r.admins, a);
    assert(remove_admin_model(r, a) =~= r);
}

/// Removal is idempotent: removing the same identity a second time changes
/// nothing.
pub proof fn lemma_remove_admin_idempotent(r: RecordModel, a: Seq<char>)
    ensures
        remove_admin_model(remove_admin_model(r, a), a) == remove_admin_model(r, a),
{
    let r1 = remove_admin_model(r, a);
    assert(!has_admin(r1, a)) by {
        lemma_remove_admin_membership(r, a, a);
    }
    lemma_remove_admin_absent(r1, a);
}

} // verus!
