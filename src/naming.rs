use vstd::prelude::*;
use rand::distributions::DistString;

verus! {

/// Number of random characters that make a transient cgroup's name unique.
pub const SUFFIX_LEN: usize = 8;

/// An ASCII letter or digit.
pub open spec fn is_alphanumeric(c: char) -> bool {
    ('0' <= c && c <= '9') || ('A' <= c && c <= 'Z') || ('a' <= c && c <= 'z')
}

/// A suffix that a fresh name may carry.
pub open spec fn valid_suffix(suffix: Seq<char>) -> bool {
    suffix.len() == SUFFIX_LEN && forall|i: int| 0 <= i < suffix.len() ==> is_alphanumeric(suffix[i])
}

/// The name of a transient cgroup: the interface, an underscore, the suffix.
pub open spec fn name_of(interface: Seq<char>, suffix: Seq<char>) -> Seq<char> {
    interface + seq!['_'] + suffix
}

/// Relies on rand's `Alphanumeric.sample_string` over the thread-local
/// generator: exactly `len` characters, each an ASCII letter or digit.
#[verifier::external_body]
fn random_alphanumeric(len: usize) -> (r: String)
    ensures
        r@.len() == len,
        forall|i: int| 0 <= i < r@.len() ==> is_alphanumeric(r@[i]),
{
    rand::distributions::Alphanumeric.sample_string(&mut rand::thread_rng(), len)
}

/// The name of the transient cgroup for `interface` with the given suffix.
pub fn cgroup_name(interface: &str, suffix: &str) -> (r: String)
    ensures
        r@ == name_of(interface@, suffix@),
{
    let mut name = String::from_str(interface);
    proof {
        reveal_strlit("_");
    }
    name.append("_");
    name.append(suffix);
    name
}

/// A fresh name for a transient cgroup for `interface`: the interface, an
/// underscore and eight random letters or digits.
pub fn fresh_cgroup_name(interface: &str) -> (r: String)
    ensures
        exists|suffix: Seq<char>| valid_suffix(suffix) && r@ == name_of(interface@, suffix),
{
    let suffix = random_alphanumeric(SUFFIX_LEN);
    let r = cgroup_name(interface, suffix.as_str());
    assert(valid_suffix(suffix@));
    r
}

/// Two launches for the same interface whose suffixes differ get different
/// cgroup names, so neither creates nor removes the other's cgroup.
pub proof fn law_distinct_names(interface: Seq<char>, s1: Seq<char>, s2: Seq<char>)
    requires
        valid_suffix(s1),
        valid_suffix(s2),
        s1 != s2,
    ensures
        name_of(interface, s1) != name_of(interface, s2),
{
    let n1 = name_of(interface, s1);
    let n2 = name_of(interface, s2);
    let k = interface.len() as int + 1;
    assert(n1.subrange(k, n1.len() as int) =~= s1);
    assert(n2.subrange(k, n2.len() as int) =~= s2);
}

} // verus!
