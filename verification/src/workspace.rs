//! Deterministic remote workspace placement: a stable 64-bit hash of the
//! canonical local project root, rendered in decimal under the remote
//! temporary directory. Two checkouts that share a directory name land in
//! different remote workspaces, while the same local path maps to the same
//! remote path on every invocation, which is what makes incremental remote
//! builds possible.

use vstd::prelude::*;

verus! {

/// Offset basis of the 64-bit FNV-1a hash.
pub const FNV_OFFSET_BASIS: u64 = 0xcbf29ce484222325;

/// Prime of the 64-bit FNV-1a hash.
pub const FNV_PRIME: u64 = 0x100000001b3;

/// One FNV-1a step: fold a character into the running hash.
pub open spec fn fnv_step(h: u64, c: char) -> u64 {
    vstd::wrapping::u64_specs::wrapping_mul(h ^ ((c as u32) as u64), FNV_PRIME)
}

/// The hash after folding in the characters of `s` from index `i` on.
pub open spec fn fnv_from(h: u64, s: Seq<char>, i: int) -> u64
    decreases s.len() - i,
{
    if i < 0 || i >= s.len() {
        h
    } else {
        fnv_from(fnv_step(h, s[i]), s, i + 1)
    }
}

/// The stable hash of a path: 64-bit FNV-1a over its characters.
pub open spec fn path_hash(s: Seq<char>) -> u64 {
    fnv_from(FNV_OFFSET_BASIS, s, 0)
}

/// Computes the stable hash of a path.
pub fn hash_path(path: &str) -> (h: u64)
    ensures
        h == path_hash(path@),
{
    let n = path.unicode_len();
    let mut h = FNV_OFFSET_BASIS;
    let mut i: usize = 0;
    while i < n
        invariant
            n == path@.len(),
            i <= n,
            path_hash(path@) == fnv_from(h, path@, i as int),
        decreases n - i,
    {
        let c = path.get_char(i);
        h = (h ^ ((c as u32) as u64)).wrapping_mul(FNV_PRIME);
        i += 1;
    }
    h
}

/// The character of one decimal digit.
pub open spec fn digit_char(d: u64) -> char {
    if d == 0 {
        '0'
    } else if d == 1 {
        '1'
    } else if d == 2 {
        '2'
    } else if d == 3 {
        '3'
    } else if d == 4 {
        '4'
    } else if d == 5 {
        '5'
    } else if d == 6 {
        '6'
    } else if d == 7 {
        '7'
    } else if d == 8 {
        '8'
    } else {
        '9'
    }
}

/// The decimal rendering of a number, most significant digit first, with no
/// leading zero except on zero itself.
pub open spec fn decimal_digits(n: nat) -> Seq<char>
    decreases n,
{
    if n < 10 {
        seq![digit_char(n as u64)]
    } else {
        decimal_digits(n / 10) + seq![digit_char((n % 10) as u64)]
    }
}

/// The one-character string of a decimal digit.
fn digit_str(d: u64) -> (s: &'static str)
    requires
        d < 10,
    ensures
        s@ =~= seq![digit_char(d)],
{
    proof {
        reveal_strlit("0");
        reveal_strlit("1");
        reveal_strlit("2");
        reveal_strlit("3");
        reveal_strlit("4");
        reveal_strlit("5");
        reveal_strlit("6");
        reveal_strlit("7");
        reveal_strlit("8");
        reveal_strlit("9");
    }
    if d == 0 {
        "0"
    } else if d == 1 {
        "1"
    } else if d == 2 {
        "2"
    } else if d == 3 {
        "3"
    } else if d == 4 {
        "4"
    } else if d == 5 {
        "5"
    } else if d == 6 {
        "6"
    } else if d == 7 {
        "7"
    } else if d == 8 {
        "8"
    } else {
        "9"
    }
}

/// Renders a number in decimal.
pub fn u64_to_decimal(n: u64) -> (s: String)
    ensures
        s@ == decimal_digits(n as nat),
    decreases n,
{
    if n < 10 {
        String::from_str(digit_str(n))
    } else {
        let q = n / 10;
        let r = n % 10;
        proof {
            assert(q < n) by (nonlinear_arith)
                requires
                    n >= 10,
                    q == n / 10,
            ;
        }
        let mut s = u64_to_decimal(q);
        s.append(digit_str(r));
        s
    }
}

/// The derived remote workspace root of a local project root: the hash of the
/// canonical local path, in decimal, under the remote temporary directory.
pub open spec fn derived_path(project_root: Seq<char>, temp_dir: Seq<char>) -> Seq<char> {
    temp_dir + "/"@ + decimal_digits(path_hash(project_root) as nat)
}

/// Derives the remote workspace root for a canonical local project root.
pub fn derive(project_root: &str, temp_dir: &str) -> (s: String)
    ensures
        s@ == derived_path(project_root@, temp_dir@),
{
    let h = hash_path(project_root);
    let digits = u64_to_decimal(h);
    let mut s = String::from_str(temp_dir);
    s.append("/");
    s.append(digits.as_str());
    s
}

/// The relative offset from an ancestor directory to a descendant: empty
/// when the two are equal, the remainder after the ancestor and one
/// separator when the descendant lies strictly below it, and nothing at all
/// when the supposed ancestor is none.
pub open spec fn offset_of(root: Seq<char>, descendant: Seq<char>) -> Option<Seq<char>> {
    if descendant == root {
        Some(Seq::<char>::empty())
    } else if descendant.len() > root.len() + 1 && descendant.take(root.len() as int) == root
        && descendant[root.len() as int] == '/' {
        Some(descendant.skip(root.len() as int + 1))
    } else {
        None
    }
}

/// Does `descendant` begin with the characters of `root`?
fn starts_with_path(root: &str, descendant: &str) -> (b: bool)
    ensures
        b == (descendant@.len() >= root@.len() && descendant@.take(root@.len() as int) == root@),
{
    let rl = root.unicode_len();
    let dl = descendant.unicode_len();
    if dl < rl {
        return false;
    }
    let mut i: usize = 0;
    while i < rl
        invariant
            rl == root@.len(),
            dl == descendant@.len(),
            rl <= dl,
            i <= rl,
            forall|j: int| 0 <= j < i ==> root@[j] == descendant@[j],
        decreases rl - i,
    {
        if root.get_char(i) != descendant.get_char(i) {
            return false;
        }
        i += 1;
    }
    proof {
        assert(descendant@.take(rl as int) =~= root@);
    }
    true
}

/// Computes the relative offset from `root` to `descendant`, or nothing when
/// `root` is not an ancestor of (or equal to) `descendant`.
pub fn path_offset(root: &str, descendant: &str) -> (r: Option<String>)
    ensures
        r.deep_view() == offset_of(root@, descendant@),
{
    let rl = root.unicode_len();
    let dl = descendant.unicode_len();
    if dl == rl && starts_with_path(root, descendant) {
        proof {
            assert(descendant@ =~= root@);
        }
        Some(String::new())
    } else if dl > rl && dl - rl > 1 && starts_with_path(root, descendant) && descendant.get_char(
        rl,
    ) == '/' {
        proof {
            assert(descendant@ != root@);
        }
        let off = descendant.substring_char(rl + 1, dl);
        Some(String::from_str(off))
    } else {
        proof {
            if descendant@ == root@ {
                assert(descendant@.take(root@.len() as int) =~= root@);
            }
        }
        None
    }
}

/// A base directory with a relative offset below it: the base itself for the
/// empty offset, else the two joined by one separator.
pub open spec fn joined_under(base: Seq<char>, offset: Seq<char>) -> Seq<char> {
    if offset.len() == 0 {
        base
    } else {
        base + "/"@ + offset
    }
}

/// Joins a relative offset under a base directory.
pub fn join_under(base: &str, offset: &str) -> (s: String)
    ensures
        s@ == joined_under(base@, offset@),
{
    if offset.unicode_len() == 0 {
        proof {
            assert(offset@ =~= Seq::<char>::empty());
        }
        String::from_str(base)
    } else {
        let mut s = String::from_str(base);
        s.append("/");
        s.append(offset);
        s
    }
}

/// Offset round-trip law: where an offset exists at all, joining it back
/// under the root gives the descendant again — what is kept of the local
/// workspace layout is exactly what is reproduced on the remote side.
pub proof fn lemma_offset_round_trip(root: Seq<char>, descendant: Seq<char>)
    requires
        offset_of(root, descendant) is Some,
    ensures
        joined_under(root, offset_of(root, descendant).unwrap()) == descendant,
{
    let off = offset_of(root, descendant).unwrap();
    if descendant == root {
    } else {
        reveal_strlit("/");
        assert("/"@ =~= seq!['/']);
        assert(joined_under(root, off) =~= descendant);
    }
}

/// Determinism law: the derived remote workspace is a function of the
/// canonical local project root and the temporary directory alone, so two
/// invocations given the same inputs place the build in the same remote
/// directory. (That two distinct roots land in distinct directories is a
/// property of the hash's distribution, not a theorem.)
pub proof fn lemma_derive_deterministic(
    root1: Seq<char>,
    temp1: Seq<char>,
    root2: Seq<char>,
    temp2: Seq<char>,
)
    requires
        root1 == root2,
        temp1 == temp2,
    ensures
        derived_path(root1, temp1) == derived_path(root2, temp2),
{
}

} // verus!
