//! Capability tags that a catalog entry may declare.
use vstd::prelude::*;
use vstd::string::*;

verus! {

/// Battery care mode (charging stops early).
pub const BATTERYCARE: &'static str = "battery-care";
/// Lid logo control.
pub const LIDLOGO: &'static str = "lid-logo";
/// Lights that stay on while the lid is closed.
pub const LIGHTSALWAYSON: &'static str = "lights-always-on";
/// Keyboard backlight control.
pub const KBDBACKLIGHT: &'static str = "kbd-backlight";
/// Fan control.
pub const FAN: &'static str = "fan";
/// Performance mode control.
pub const PERF: &'static str = "perf";

/// Every tag that a catalog entry may declare.
pub const ALL_FEATURES: [&'static str; 6] = [BATTERYCARE, LIDLOGO, LIGHTSALWAYSON, KBDBACKLIGHT, FAN, PERF];

/// The closed set of capability tags.
pub open spec fn is_feature_tag(tag: Seq<char>) -> bool {
    tag == BATTERYCARE@ || tag == LIDLOGO@ || tag == LIGHTSALWAYSON@ || tag == KBDBACKLIGHT@
        || tag == FAN@ || tag == PERF@
}

/// `prefix` is an initial segment of `s`.
pub open spec fn is_prefix(prefix: Seq<char>, s: Seq<char>) -> bool {
    prefix.len() <= s.len() && s.subrange(0, prefix.len() as int) == prefix
}

/// Whether `s` begins with `prefix`, character by character.
pub fn starts_with(s: &str, prefix: &str) -> (r: bool)
    ensures
        r == is_prefix(prefix@, s@),
{
    let n = prefix.unicode_len();
    if n > s.unicode_len() {
        return false;
    }
    let mut i: usize = 0;
    while i < n
        invariant
            n == prefix@.len(),
            n <= s@.len(),
            i <= n,
            forall|j: int| 0 <= j < i ==> s@[j] == prefix@[j],
        decreases n - i,
    {
        if s.get_char(i) != prefix.get_char(i) {
            assert(s@.subrange(0, n as int)[i as int] != prefix@[i as int]);
            return false;
        }
        i = i + 1;
    }
    assert(s@.subrange(0, n as int) =~= prefix@);
    true
}

/// Whether two strings hold the same characters.
pub fn str_equal(a: &str, b: &str) -> (r: bool)
    ensures
        r == (a@ == b@),
{
    if a.unicode_len() != b.unicode_len() {
        return false;
    }
    let ok = starts_with(a, b);
    assert(a@.subrange(0, b@.len() as int) =~= a@);
    ok
}

/// Accepts a capability list only when every tag is in the closed set: a
/// call verifies only where that is proved, so the catalog cannot declare
/// an unknown capability.
pub fn validate_features(features: &[&str])
    requires
        forall|i: int| 0 <= i < features@.len() ==> is_feature_tag(#[trigger] features@[i]@),
{
}

/// Whether `value` is one of the strings of `array`.
pub fn contains(array: &[&str], value: &str) -> (r: bool)
    ensures
        r == exists|i: int| 0 <= i < array@.len() && array@[i]@ == value@,
{
    let mut i: usize = 0;
    while i < array.len()
        invariant
            i <= array@.len(),
            forall|j: int| 0 <= j < i ==> array@[j]@ != value@,
        decreases array@.len() - i,
    {
        if str_equal(array[i], value) {
            return true;
        }
        i = i + 1;
    }
    false
}

/// Whether every string of `features` is a capability tag.
pub fn features_known(features: &[&str]) -> (r: bool)
    ensures
        r == forall|i: int| 0 <= i < features@.len() ==> is_feature_tag(#[trigger] features@[i]@),
{
    let all = ALL_FEATURES.as_slice();
    assert(all@ == ALL_FEATURES@);
    let mut i: usize = 0;
    while i < features.len()
        invariant
            all@ == ALL_FEATURES@,
            i <= features@.len(),
            forall|j: int| 0 <= j < i ==> is_feature_tag(#[trigger] features@[j]@),
        decreases features@.len() - i,
    {
        let known = contains(all, features[i]);
        proof {
            if known {
                let k = choose|k: int| 0 <= k < all@.len() && all@[k]@ == features@[i as int]@;
                assert(0 <= k < 6);
            } else {
                assert(all@[0]@ != features@[i as int]@);
                assert(all@[1]@ != features@[i as int]@);
                assert(all@[2]@ != features@[i as int]@);
                assert(all@[3]@ != features@[i as int]@);
                assert(all@[4]@ != features@[i as int]@);
                assert(all@[5]@ != features@[i as int]@);
            }
        }
        if !known {
            return false;
        }
        i = i + 1;
    }
    true
}

} // verus!
