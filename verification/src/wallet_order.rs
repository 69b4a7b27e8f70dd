use vstd::prelude::*;
use vstd::string::*;

use crate::application::WalletDescriptor;

verus! {

broadcast use vstd::seq_lib::group_to_multiset_ensures;

/// Lexicographic order on character sequences, by code point; for strings it
/// is the order of their UTF-8 bytes, the order of `String`.
pub open spec fn chars_le(a: Seq<char>, b: Seq<char>) -> bool
    decreases a.len(),
{
    if a.len() == 0 {
        true
    } else if b.len() == 0 {
        false
    } else if (a[0] as int) < (b[0] as int) {
        true
    } else if (a[0] as int) > (b[0] as int) {
        false
    } else {
        chars_le(a.drop_first(), b.drop_first())
    }
}

/// The order of optional titles: no title first, then titles by `chars_le`.
pub open spec fn title_le(a: Option<String>, b: Option<String>) -> bool {
    match (a, b) {
        (None, _) => true,
        (Some(_), None) => false,
        (Some(x), Some(y)) => chars_le(x@, y@),
    }
}

/// The order of wallet descriptors: by title, then by file name.
pub open spec fn descriptor_le(a: WalletDescriptor, b: WalletDescriptor) -> bool {
    title_le(a.title, b.title) && (title_le(b.title, a.title) ==> chars_le(a.filename@, b.filename@))
}

/// Each descriptor is in order with every later one.
pub open spec fn descriptors_sorted(s: Seq<WalletDescriptor>) -> bool {
    forall|i: int, j: int| 0 <= i < j < s.len() ==> descriptor_le(#[trigger] s[i], #[trigger] s[j])
}

pub proof fn lemma_chars_le_total(a: Seq<char>, b: Seq<char>)
    ensures
        chars_le(a, b) || chars_le(b, a),
    decreases a.len(),
{
    if a.len() > 0 && b.len() > 0 && a[0] == b[0] {
        lemma_chars_le_total(a.drop_first(), b.drop_first());
    }
}

pub proof fn lemma_chars_le_reflexive(a: Seq<char>)
    ensures
        chars_le(a, a),
    decreases a.len(),
{
    if a.len() > 0 {
        lemma_chars_le_reflexive(a.drop_first());
    }
}

/// Every descriptor is in order with itself.
pub proof fn lemma_descriptor_le_reflexive(a: WalletDescriptor)
    ensures
        descriptor_le(a, a),
{
    lemma_chars_le_reflexive(a.filename@);
    if let Some(x) = a.title {
        lemma_chars_le_reflexive(x@);
    }
}

pub proof fn lemma_chars_le_transitive(a: Seq<char>, b: Seq<char>, c: Seq<char>)
    requires
        chars_le(a, b),
        chars_le(b, c),
    ensures
        chars_le(a, c),
    decreases a.len(),
{
    if a.len() > 0 && b.len() > 0 && c.len() > 0 && a[0] == b[0] && b[0] == c[0] {
        lemma_chars_le_transitive(a.drop_first(), b.drop_first(), c.drop_first());
    }
}

pub proof fn lemma_chars_le_antisymmetric(a: Seq<char>, b: Seq<char>)
    requires
        chars_le(a, b),
        chars_le(b, a),
    ensures
        a == b,
    decreases a.len(),
{
    if a.len() == 0 || b.len() == 0 {
        assert(a =~= b);
    } else {
        lemma_chars_le_antisymmetric(a.drop_first(), b.drop_first());
        assert(a[0] == b[0]);
        assert(a =~= seq![a[0]] + a.drop_first());
        assert(b =~= seq![b[0]] + b.drop_first());
    }
}

/// Any two descriptors are ordered one way or the other.
pub proof fn lemma_descriptor_le_total(a: WalletDescriptor, b: WalletDescriptor)
    ensures
        descriptor_le(a, b) || descriptor_le(b, a),
{
    lemma_chars_le_total(a.filename@, b.filename@);
    match (a.title, b.title) {
        (Some(x), Some(y)) => lemma_chars_le_total(x@, y@),
        _ => {},
    }
}

/// The order of descriptors is transitive.
pub proof fn lemma_descriptor_le_transitive(a: WalletDescriptor, b: WalletDescriptor, c: WalletDescriptor)
    requires
        descriptor_le(a, b),
        descriptor_le(b, c),
    ensures
        descriptor_le(a, c),
{
    match (a.title, b.title, c.title) {
        (Some(x), Some(y), Some(z)) => {
            lemma_chars_le_transitive(x@, y@, z@);
            if chars_le(z@, x@) {
                lemma_chars_le_transitive(z@, x@, y@);
                lemma_chars_le_transitive(y@, z@, x@);
                lemma_chars_le_transitive(a.filename@, b.filename@, c.filename@);
            }
        },
        (None, None, None) => {
            lemma_chars_le_transitive(a.filename@, b.filename@, c.filename@);
        },
        (None, None, Some(_)) => {},
        (None, Some(_), _) => {},
        (Some(x), Some(y), None) => {},
        (Some(_), None, _) => {},
    }
}

/// Whether `a` comes before or with `b` in the order of characters.
fn str_le(a: &str, b: &str) -> (r: bool)
    ensures
        r == chars_le(a@, b@),
{
    let la = a.unicode_len();
    let lb = b.unicode_len();
    let mut i: usize = 0;
    assert(a@.skip(0) =~= a@);
    assert(b@.skip(0) =~= b@);
    while i < la && i < lb
        invariant
            la == a@.len(),
            lb == b@.len(),
            0 <= i <= la,
            i <= lb,
            chars_le(a@, b@) == chars_le(a@.skip(i as int), b@.skip(i as int)),
        decreases la - i,
    {
        let ca = a.get_char(i);
        let cb = b.get_char(i);
        if (ca as u32) < (cb as u32) {
            return true;
        }
        if (ca as u32) > (cb as u32) {
            return false;
        }
        assert(a@.skip(i as int).drop_first() =~= a@.skip(i + 1));
        assert(b@.skip(i as int).drop_first() =~= b@.skip(i + 1));
        i += 1;
    }
    la <= lb
}

/// Whether `a` comes before or with `b` in the order of wallet descriptors.
pub fn descriptor_le_exec(a: &WalletDescriptor, b: &WalletDescriptor) -> (r: bool)
    ensures
        r == descriptor_le(*a, *b),
{
    let (ab, ba) = match (&a.title, &b.title) {
        (None, None) => (true, true),
        (None, Some(_)) => (true, false),
        (Some(_), None) => (false, true),
        (Some(x), Some(y)) => (str_le(x.as_str(), y.as_str()), str_le(y.as_str(), x.as_str())),
    };
    if !ab {
        false
    } else if !ba {
        true
    } else {
        str_le(a.filename.as_str(), b.filename.as_str())
    }
}

/// The descriptors in order, by title and then by file name, as a stable
/// sort puts them.
pub fn sort_descriptors(list: Vec<WalletDescriptor>) -> (sorted: Vec<WalletDescriptor>)
    ensures
        descriptors_sorted(sorted@),
        sorted@.to_multiset() == list@.to_multiset(),
{
    let mut rest = list;
    let mut sorted: Vec<WalletDescriptor> = Vec::new();
    while rest.len() > 0
        invariant
            descriptors_sorted(sorted@),
            sorted@.to_multiset().add(rest@.to_multiset()) == list@.to_multiset(),
        decreases rest.len(),
    {
        let ghost before = sorted@;
        let ghost rest_before = rest@;
        let x = rest.remove(0);
        let mut p: usize = 0;
        while p < sorted.len() && descriptor_le_exec(&sorted[p], &x)
            invariant
                sorted@ == before,
                0 <= p <= sorted.len(),
                forall|k: int| 0 <= k < p ==> descriptor_le(#[trigger] sorted@[k], x),
            decreases sorted.len() - p,
        {
            p += 1;
        }
        proof {
            if p < sorted.len() {
                assert(!descriptor_le(sorted@[p as int], x));
                lemma_descriptor_le_total(sorted@[p as int], x);
            }
        }
        sorted.insert(p, x);
        proof {
            let s = sorted@;
            assert(s == before.insert(p as int, x));
            assert forall|i: int, j: int| 0 <= i < j < s.len() implies descriptor_le(#[trigger] s[i], #[trigger] s[j]) by {
                if j < p {
                    assert(s[i] == before[i] && s[j] == before[j]);
                } else if j == p {
                    assert(s[i] == before[i]);
                } else if i < p {
                    assert(s[i] == before[i] && s[j] == before[j - 1]);
                } else if i == p {
                    assert(s[j] == before[j - 1]);
                    if j - 1 == p {
                        lemma_descriptor_le_reflexive(before[p as int]);
                    }
                    assert(descriptor_le(before[p as int], before[j - 1]));
                    lemma_descriptor_le_transitive(x, before[p as int], before[j - 1]);
                } else {
                    assert(s[i] == before[i - 1] && s[j] == before[j - 1]);
                }
            }
            vstd::seq_lib::to_multiset_insert(before, p as int, x);
            vstd::seq_lib::to_multiset_remove(rest_before, 0);
            assert(rest_before[0] == x);
            assert(sorted@.to_multiset().add(rest@.to_multiset()) =~= list@.to_multiset());
        }
    }
    proof {
        assert(rest@.to_multiset() =~= vstd::multiset::Multiset::empty());
        assert(sorted@.to_multiset().add(rest@.to_multiset()) =~= sorted@.to_multiset());
    }
    sorted
}

/// Each string is in order with every later one.
pub open spec fn strings_sorted(s: Seq<String>) -> bool {
    forall|i: int, j: int| 0 <= i < j < s.len() ==> chars_le(#[trigger] s[i]@, #[trigger] s[j]@)
}

/// The strings in ascending order, as a stable sort of strings puts them.
pub fn sort_strings(list: Vec<String>) -> (sorted: Vec<String>)
    ensures
        strings_sorted(sorted@),
        sorted@.to_multiset() == list@.to_multiset(),
{
    let mut rest = list;
    let mut sorted: Vec<String> = Vec::new();
    while rest.len() > 0
        invariant
            strings_sorted(sorted@),
            sorted@.to_multiset().add(rest@.to_multiset()) == list@.to_multiset(),
        decreases rest.len(),
    {
        let ghost before = sorted@;
        let ghost rest_before = rest@;
        let x = rest.remove(0);
        let mut p: usize = 0;
        while p < sorted.len() && str_le(sorted[p].as_str(), x.as_str())
            invariant
                sorted@ == before,
                0 <= p <= sorted.len(),
                forall|k: int| 0 <= k < p ==> chars_le(#[trigger] sorted@[k]@, x@),
            decreases sorted.len() - p,
        {
            p += 1;
        }
        proof {
            if p < sorted.len() {
                lemma_chars_le_total(sorted@[p as int]@, x@);
            }
        }
        sorted.insert(p, x);
        proof {
            let s = sorted@;
            assert(s == before.insert(p as int, x));
            assert forall|i: int, j: int| 0 <= i < j < s.len() implies chars_le(#[trigger] s[i]@, #[trigger] s[j]@) by {
                if j < p {
                    assert(s[i] == before[i] && s[j] == before[j]);
                } else if j == p {
                    assert(s[i] == before[i]);
                } else if i < p {
                    assert(s[i] == before[i] && s[j] == before[j - 1]);
                } else if i == p {
                    assert(s[j] == before[j - 1]);
                    if j - 1 == p {
                        lemma_chars_le_reflexive(before[p as int]@);
                    }
                    assert(chars_le(before[p as int]@, before[j - 1]@));
                    lemma_chars_le_transitive(x@, before[p as int]@, before[j - 1]@);
                } else {
                    assert(s[i] == before[i - 1] && s[j] == before[j - 1]);
                }
            }
            vstd::seq_lib::to_multiset_insert(before, p as int, x);
            vstd::seq_lib::to_multiset_remove(rest_before, 0);
            assert(rest_before[0] == x);
            assert(sorted@.to_multiset().add(rest@.to_multiset()) =~= list@.to_multiset());
        }
    }
    proof {
        assert(rest@.to_multiset() =~= vstd::multiset::Multiset::empty());
        assert(sorted@.to_multiset().add(rest@.to_multiset()) =~= sorted@.to_multiset());
    }
    sorted
}

} // verus!
