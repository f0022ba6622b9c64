//! The name-parsing grammar: from a bare filename to a feature instance
//! number and a typed subfeature variant.
//!
//! A name is either the literal `beep_enable`, or
//! `<class-prefix><digits>` optionally followed by `_<suffix>`. The split
//! happens at the first underscore only; the head must contain a digit,
//! and everything from the first digit to the end of the head must be a
//! base-10 instance number that fits in 32 bits.

use vstd::prelude::*;
use vstd::string::StrSliceExecFns;

use crate::registry::{lookup, spec_lookup};
use crate::strutil::str_eq;
use crate::subfeature::Subfeature;
use crate::types::SubfeatureType;

verus! {

/// A classification failure of the name grammar.
#[derive(Clone, Copy, Debug, Eq, PartialEq)]
pub enum SubfeatureError {
    /// The filename does not match the grammar: no digit in the head, or a
    /// malformed instance number.
    Invalid,
    /// The name is well formed but its class prefix or suffix is not
    /// registered.
    Unknown,
}

/// Whether a character is an ASCII decimal digit.
pub open spec fn is_digit_char(c: char) -> bool {
    48 <= c as u32 <= 57
}

/// The numeric value of an ASCII digit character.
pub open spec fn digit_val(c: char) -> nat {
    if is_digit_char(c) {
        (c as u32 - 48) as nat
    } else {
        0
    }
}

/// Whether every character of the sequence is an ASCII decimal digit.
pub open spec fn all_digits(s: Seq<char>) -> bool {
    forall|i: int| 0 <= i < s.len() ==> is_digit_char(s[i])
}

/// The base-10 value of a sequence of digit characters.
pub open spec fn digits_val(s: Seq<char>) -> nat
    decreases s.len(),
{
    if s.len() == 0 {
        0
    } else {
        digits_val(s.drop_last()) * 10 + digit_val(s.last())
    }
}

/// The index of the first underscore at or after position `i`, or the
/// length of the sequence when there is none.
pub open spec fn first_underscore_from(s: Seq<char>, i: int) -> int
    decreases s.len() - i,
{
    if i < 0 || i >= s.len() {
        s.len() as int
    } else if s[i] == '_' {
        i
    } else {
        first_underscore_from(s, i + 1)
    }
}

/// The index of the first ASCII digit at or after position `i`, or the
/// length of the sequence when there is none.
pub open spec fn first_digit_from(s: Seq<char>, i: int) -> int
    decreases s.len() - i,
{
    if i < 0 || i >= s.len() {
        s.len() as int
    } else if is_digit_char(s[i]) {
        i
    } else {
        first_digit_from(s, i + 1)
    }
}

/// The head of a name: everything before the first underscore.
pub open spec fn spec_head(name: Seq<char>) -> Seq<char> {
    name.subrange(0, first_underscore_from(name, 0))
}

/// The suffix of a name: everything after the first underscore, or the
/// empty sequence when the name holds no underscore.
pub open spec fn spec_suffix(name: Seq<char>) -> Seq<char> {
    let u = first_underscore_from(name, 0);
    if u == name.len() {
        Seq::empty()
    } else {
        name.subrange(u + 1, name.len() as int)
    }
}

/// What parsing a bare subfeature filename yields: the feature instance
/// number and the typed variant, or a classification failure.
pub open spec fn spec_parse_name(name: Seq<char>) -> Result<(u32, SubfeatureType), SubfeatureError> {
    if name == "beep_enable"@ {
        Ok((0u32, SubfeatureType::BeepEnable))
    } else {
        let head = spec_head(name);
        let d = first_digit_from(head, 0);
        if d == head.len() {
            Err(SubfeatureError::Invalid)
        } else {
            let digits = head.subrange(d, head.len() as int);
            if digits.len() == 0 || !all_digits(digits) || digits_val(digits) > u32::MAX {
                Err(SubfeatureError::Invalid)
            } else {
                match spec_lookup(head.subrange(0, d), spec_suffix(name)) {
                    Some(t) => Ok((digits_val(digits) as u32, t)),
                    None => Err(SubfeatureError::Unknown),
                }
            }
        }
    }
}

/// The first underscore lies between `i` and the length, marks an
/// underscore when in range, and nothing before it is an underscore.
pub proof fn lemma_first_underscore_from(s: Seq<char>, i: int)
    requires
        0 <= i <= s.len(),
    ensures
        i <= first_underscore_from(s, i) <= s.len(),
        first_underscore_from(s, i) < s.len() ==> s[first_underscore_from(s, i)] == '_',
        forall|j: int| i <= j < first_underscore_from(s, i) ==> s[j] != '_',
    decreases s.len() - i,
{
    if i < s.len() && s[i] != '_' {
        lemma_first_underscore_from(s, i + 1);
    }
}

/// The first digit lies between `i` and the length, marks a digit when in
/// range, and nothing before it is a digit.
pub proof fn lemma_first_digit_from(s: Seq<char>, i: int)
    requires
        0 <= i <= s.len(),
    ensures
        i <= first_digit_from(s, i) <= s.len(),
        first_digit_from(s, i) < s.len() ==> is_digit_char(s[first_digit_from(s, i)]),
        forall|j: int| i <= j < first_digit_from(s, i) ==> !is_digit_char(s[j]),
    decreases s.len() - i,
{
    if i < s.len() && !is_digit_char(s[i]) {
        lemma_first_digit_from(s, i + 1);
    }
}

/// When no underscore stands in `[i, k)` and `k` is either an underscore
/// or the end, `k` is where the search from `i` lands.
pub proof fn lemma_first_underscore_pin(s: Seq<char>, i: int, k: int)
    requires
        0 <= i <= k <= s.len(),
        forall|j: int| i <= j < k ==> s[j] != '_',
        k < s.len() ==> s[k] == '_',
    ensures
        k < s.len() ==> first_underscore_from(s, i) == k,
        k == s.len() ==> first_underscore_from(s, i) == s.len(),
    decreases k - i,
{
    if i < k {
        lemma_first_underscore_pin(s, i + 1, k);
    }
}

/// When no digit stands in `[i, k)` and `k` is either a digit or the end,
/// `k` is where the search from `i` lands.
pub proof fn lemma_first_digit_pin(s: Seq<char>, i: int, k: int)
    requires
        0 <= i <= k <= s.len(),
        forall|j: int| i <= j < k ==> !is_digit_char(s[j]),
        k < s.len() ==> is_digit_char(s[k]),
    ensures
        k < s.len() ==> first_digit_from(s, i) == k,
        k == s.len() ==> first_digit_from(s, i) == s.len(),
    decreases k - i,
{
    if i < k {
        lemma_first_digit_pin(s, i + 1, k);
    }
}

/// Extending a digit string to the right never lowers its value.
pub proof fn lemma_digits_val_monotone(s: Seq<char>, i: int, j: int)
    requires
        0 <= i <= j <= s.len(),
    ensures
        digits_val(s.subrange(0, i)) <= digits_val(s.subrange(0, j)),
    decreases j - i,
{
    if i < j {
        lemma_digits_val_monotone(s, i, j - 1);
        assert(s.subrange(0, j).drop_last() =~= s.subrange(0, j - 1));
        assert(digits_val(s.subrange(0, j)) == digits_val(s.subrange(0, j - 1)) * 10 + digit_val(
            s.subrange(0, j).last(),
        ));
    }
}

/// A registered class prefix holds neither an underscore nor a digit.
pub proof fn lemma_registered_prefix_shape(prefix: Seq<char>)
    requires
        crate::registry::spec_prefix_registered(prefix),
    ensures
        forall|j: int| 0 <= j < prefix.len() ==> prefix[j] != '_',
        forall|j: int| 0 <= j < prefix.len() ==> !is_digit_char(prefix[j]),
{
    reveal_strlit("temp");
    reveal_strlit("in");
    reveal_strlit("fan");
    reveal_strlit("pwm");
    reveal_strlit("cpu");
    reveal_strlit("power");
    reveal_strlit("curr");
    reveal_strlit("energy");
    reveal_strlit("intrusion");
    reveal_strlit("humidity");
}

/// The literal `beep_enable` parses to instance 0 of the standalone
/// beep-enable kind, whatever the registry holds.
pub proof fn lemma_beep_enable_parses()
    ensures
        spec_parse_name("beep_enable"@) == Ok::<(u32, SubfeatureType), SubfeatureError>(
            (0u32, SubfeatureType::BeepEnable),
        ),
{
}

/// For every registered (class prefix, suffix) pair and every instance
/// number written as a digit string, the name `<prefix><digits>_<suffix>`
/// parses to that instance number and the registered type.
pub proof fn lemma_registered_pair_parses(prefix: Seq<char>, digits: Seq<char>, suffix: Seq<char>)
    requires
        spec_lookup(prefix, suffix) is Some,
        digits.len() > 0,
        all_digits(digits),
        digits_val(digits) <= u32::MAX,
    ensures
        spec_parse_name(prefix + digits + seq!['_'] + suffix) == Ok::<
            (u32, SubfeatureType),
            SubfeatureError,
        >((digits_val(digits) as u32, spec_lookup(prefix, suffix)->0)),
{
    let name = prefix + digits + seq!['_'] + suffix;
    let pl = prefix.len() as int;
    let dl = digits.len() as int;
    crate::registry::lemma_lookup_needs_registered_prefix(prefix, suffix);
    lemma_registered_prefix_shape(prefix);

    assert(is_digit_char(name[pl]));
    assert(name != "beep_enable"@) by {
        reveal_strlit("beep_enable");
        if name == "beep_enable"@ {
            assert(forall|j: int|
                0 <= j < "beep_enable"@.len() ==> !is_digit_char("beep_enable"@[j]));
            assert(name[pl] == "beep_enable"@[pl]);
        }
    }

    assert forall|j: int| 0 <= j < pl + dl implies name[j] != '_' by {
        if j < pl {
            assert(name[j] == prefix[j]);
        } else {
            assert(name[j] == digits[j - pl]);
            assert(is_digit_char(name[j]));
        }
    }
    assert(name[pl + dl] == '_');
    lemma_first_underscore_pin(name, 0, pl + dl);

    let head = spec_head(name);
    assert(head =~= prefix + digits);
    let sfx = spec_suffix(name);
    assert(sfx =~= suffix);

    assert forall|j: int| 0 <= j < pl implies !is_digit_char(head[j]) by {
        assert(head[j] == prefix[j]);
    }
    assert(is_digit_char(head[pl]));
    lemma_first_digit_pin(head, 0, pl);

    assert(head.subrange(pl, head.len() as int) =~= digits);
    assert(head.subrange(0, pl) =~= prefix);
}

/// A bare name `<prefix><digits>` with a registered class prefix parses
/// successfully exactly when the class registers the empty suffix;
/// otherwise it is unknown.
pub proof fn lemma_bare_name_parses(prefix: Seq<char>, digits: Seq<char>)
    requires
        crate::registry::spec_prefix_registered(prefix),
        digits.len() > 0,
        all_digits(digits),
        digits_val(digits) <= u32::MAX,
    ensures
        spec_lookup(prefix, Seq::<char>::empty()) is Some ==> spec_parse_name(prefix + digits)
            == Ok::<(u32, SubfeatureType), SubfeatureError>(
            (digits_val(digits) as u32, spec_lookup(prefix, Seq::<char>::empty())->0),
        ),
        spec_lookup(prefix, Seq::<char>::empty()) is None ==> spec_parse_name(prefix + digits)
            == Err::<(u32, SubfeatureType), SubfeatureError>(SubfeatureError::Unknown),
{
    let name = prefix + digits;
    let pl = prefix.len() as int;
    let dl = digits.len() as int;
    lemma_registered_prefix_shape(prefix);

    assert(is_digit_char(name[pl]));
    assert(name != "beep_enable"@) by {
        reveal_strlit("beep_enable");
        if name == "beep_enable"@ {
            assert(forall|j: int|
                0 <= j < "beep_enable"@.len() ==> !is_digit_char("beep_enable"@[j]));
            assert(name[pl] == "beep_enable"@[pl]);
        }
    }

    assert forall|j: int| 0 <= j < name.len() implies name[j] != '_' by {
        if j < pl {
            assert(name[j] == prefix[j]);
        } else {
            assert(name[j] == digits[j - pl]);
            assert(is_digit_char(name[j]));
        }
    }
    lemma_first_underscore_pin(name, 0, name.len() as int);

    let head = spec_head(name);
    assert(head =~= prefix + digits);
    let sfx = spec_suffix(name);
    assert(sfx =~= Seq::<char>::empty());

    assert forall|j: int| 0 <= j < pl implies !is_digit_char(head[j]) by {
        assert(head[j] == prefix[j]);
    }
    assert(is_digit_char(head[pl]));
    lemma_first_digit_pin(head, 0, pl);

    assert(head.subrange(pl, head.len() as int) =~= digits);
    assert(head.subrange(0, pl) =~= prefix);
}

fn find_underscore_idx(s: &str) -> (r: usize)
    ensures
        r as int == first_underscore_from(s@, 0),
{
    let n = s.unicode_len();
    let mut i: usize = 0;
    while i < n
        invariant
            0 <= i <= n,
            n == s@.len(),
            first_underscore_from(s@, 0) == first_underscore_from(s@, i as int),
        decreases n - i,
    {
        if s.get_char(i) == '_' {
            proof {
                assert(first_underscore_from(s@, i as int) == i);
            }
            return i;
        }
        proof {
            assert(first_underscore_from(s@, i as int) == first_underscore_from(s@, i + 1));
        }
        i += 1;
    }
    i
}

fn find_digit_idx(s: &str) -> (r: usize)
    ensures
        r as int == first_digit_from(s@, 0),
{
    let n = s.unicode_len();
    let mut i: usize = 0;
    while i < n
        invariant
            0 <= i <= n,
            n == s@.len(),
            first_digit_from(s@, 0) == first_digit_from(s@, i as int),
        decreases n - i,
    {
        let u = s.get_char(i) as u32;
        if 48 <= u && u <= 57 {
            proof {
                assert(first_digit_from(s@, i as int) == i);
            }
            return i;
        }
        proof {
            assert(first_digit_from(s@, i as int) == first_digit_from(s@, i + 1));
        }
        i += 1;
    }
    i
}

fn parse_u32_digits(s: &str) -> (r: Option<u32>)
    ensures
        match r {
            Some(v) => all_digits(s@) && s@.len() > 0 && digits_val(s@) <= u32::MAX && v
                == digits_val(s@),
            None => s@.len() == 0 || !all_digits(s@) || digits_val(s@) > u32::MAX,
        },
{
    let n = s.unicode_len();
    if n == 0 {
        return None;
    }
    let mut acc: u64 = 0;
    let mut i: usize = 0;
    while i < n
        invariant
            0 <= i <= n,
            n == s@.len(),
            all_digits(s@.subrange(0, i as int)),
            acc == digits_val(s@.subrange(0, i as int)),
            acc <= u32::MAX,
        decreases n - i,
    {
        let c = s.get_char(i);
        let u = c as u32;
        if !(48 <= u && u <= 57) {
            proof {
                assert(!is_digit_char(s@[i as int]));
            }
            return None;
        }
        acc = acc * 10 + ((u - 48) as u64);
        proof {
            assert(s@.subrange(0, (i + 1) as int).drop_last() =~= s@.subrange(0, i as int));
            assert(s@.subrange(0, (i + 1) as int).last() == s@[i as int]);
        }
        if acc > (u32::MAX as u64) {
            proof {
                lemma_digits_val_monotone(s@, (i + 1) as int, s@.len() as int);
                assert(s@.subrange(0, s@.len() as int) =~= s@);
            }
            return None;
        }
        i += 1;
    }
    proof {
        assert(s@.subrange(0, n as int) =~= s@);
    }
    Some(acc as u32)
}

impl Subfeature {
    /// Parse a bare subfeature filename into its feature instance number
    /// and typed variant, consulting the registry.
    pub fn get_properties_from_name(name: &str) -> (r: Result<
        (u32, SubfeatureType),
        SubfeatureError,
    >)
        ensures
            r == spec_parse_name(name@),
    {
        if str_eq(name, "beep_enable") {
            return Ok((0, SubfeatureType::BeepEnable));
        }
        let n = name.unicode_len();
        let u = find_underscore_idx(name);
        proof {
            lemma_first_underscore_from(name@, 0);
        }
        let head = name.substring_char(0, u);
        let suffix: &str = if u == n {
            ""
        } else {
            name.substring_char(u + 1, n)
        };
        proof {
            if u == n {
                reveal_strlit("");
                assert(suffix@ =~= spec_suffix(name@));
            }
            assert(suffix@ == spec_suffix(name@));
            assert(head@ == spec_head(name@));
        }
        let hl = head.unicode_len();
        let d = find_digit_idx(head);
        if d == hl {
            return Err(SubfeatureError::Invalid);
        }
        proof {
            lemma_first_digit_from(head@, 0);
        }
        let prefix = head.substring_char(0, d);
        let digits = head.substring_char(d, hl);
        match parse_u32_digits(digits) {
            None => Err(SubfeatureError::Invalid),
            Some(num) => match lookup(prefix, suffix) {
                Some(t) => Ok((num, t)),
                None => Err(SubfeatureError::Unknown),
            },
        }
    }
}

} // verus!
