//! What a build file is told of the toolchain.

use vstd::prelude::*;
use crate::text::{find_char, find_char_in, from_char_range, lemma_find_char_from, to_chars};
use crate::toolchain::Toolchain;

verus! {

/// The value of a decimal digit.
pub open spec fn digit_value(c: char) -> int {
    c as int - '0' as int
}

/// Whether `c` is a decimal digit.
pub open spec fn is_digit(c: char) -> bool {
    '0' <= c <= '9'
}

/// The number that digits stand for.
pub open spec fn digits_value(s: Seq<char>) -> int
    decreases s.len(),
{
    if s.len() == 0 {
        0
    } else {
        digits_value(s.drop_last()) * 10 + digit_value(s.last())
    }
}

/// Whether every character of `s` is a decimal digit.
pub open spec fn all_digits(s: Seq<char>) -> bool {
    forall|i: int| 0 <= i < s.len() ==> is_digit(#[trigger] s[i])
}

/// The number that a text stands for: decimal digits, at least one, a
/// plus sign before them at most, and no more than a `u32` holds. Of
/// any other text the number is 0.
pub open spec fn number_or_zero(s: Seq<char>) -> int {
    digits_or_zero(
        if s.len() > 0 && s[0] == '+' {
            s.skip(1)
        } else {
            s
        },
    )
}

/// The number that digits stand for where there is at least one and
/// the number is no more than a `u32` holds; else 0.
pub open spec fn digits_or_zero(digits: Seq<char>) -> int {
    if digits.len() > 0 && all_digits(digits) && digits_value(digits) <= u32::MAX {
        digits_value(digits)
    } else {
        0
    }
}

/// The number of a text of digits is not less than that of what it
/// begins with.
pub proof fn lemma_digits_grow(s: Seq<char>, n: int)
    requires
        all_digits(s),
        0 <= n <= s.len(),
    ensures
        0 <= digits_value(s.take(n)) <= digits_value(s),
    decreases s.len() - n,
{
    lemma_digits_nonnegative(s.take(n));
    if n < s.len() {
        assert(s.take(n + 1).drop_last() =~= s.take(n));
        assert(is_digit(s[n]));
        assert(s.take(n + 1).last() == s[n]);
        lemma_digits_grow(s, n + 1);
    } else {
        assert(s.take(n) =~= s);
    }
}

/// The number of a text of digits is not negative.
pub proof fn lemma_digits_nonnegative(s: Seq<char>)
    requires
        all_digits(s),
    ensures
        0 <= digits_value(s),
    decreases s.len(),
{
    if s.len() > 0 {
        assert forall|i: int| 0 <= i < s.drop_last().len() implies is_digit(
            #[trigger] s.drop_last()[i],
        ) by {
            assert(s.drop_last()[i] == s[i]);
        }
        lemma_digits_nonnegative(s.drop_last());
        assert(is_digit(s[s.len() - 1]));
    }
}

/// The number that the characters of `chars` from `from` up to `to`
/// stand for.
pub fn parse_number(chars: &Vec<char>, from: usize, to: usize) -> (r: u32)
    requires
        from <= to <= chars@.len(),
    ensures
        r == number_or_zero(chars@.subrange(from as int, to as int)),
{
    let ghost s = chars@.subrange(from as int, to as int);
    let mut start: usize = from;
    if from < to && chars[from] == '+' {
        start = from + 1;
    }
    let ghost digits = chars@.subrange(start as int, to as int);
    proof {
        if from < to && chars@[from as int] == '+' {
            assert(s[0] == '+');
            assert(s.skip(1) =~= digits);
        } else {
            if s.len() > 0 {
                assert(s[0] == chars@[from as int]);
            }
            assert(s =~= digits);
        }
    }
    if start == to {
        return 0;
    }
    let mut value: u32 = 0;
    let mut i: usize = start;
    assert(digits.take(0) =~= Seq::<char>::empty());
    while i < to
        invariant
            start <= i <= to <= chars@.len(),
            start < to,
            digits == chars@.subrange(start as int, to as int),
            number_or_zero(chars@.subrange(from as int, to as int)) == digits_or_zero(digits),
            all_digits(digits.take(i - start)),
            value == digits_value(digits.take(i - start)),
        decreases to - i,
    {
        let c = chars[i];
        proof {
            assert(digits.take(i - start + 1).drop_last() =~= digits.take(i - start));
            assert(digits.take(i - start + 1).last() == c);
        }
        if !('0' <= c && c <= '9') {
            assert(!is_digit(digits[i - start]));
            return 0;
        }
        let d: u32 = (c as u32) - ('0' as u32);
        proof {
            assert forall|k: int| 0 <= k < digits.take(i - start + 1).len() implies is_digit(
                #[trigger] digits.take(i - start + 1)[k],
            ) by {
                if k < i - start {
                    assert(digits.take(i - start)[k] == digits.take(i - start + 1)[k]);
                }
            }
        }
        let next = match value.checked_mul(10) {
            Some(x) => x.checked_add(d),
            None => None,
        };
        match next {
            Some(x) => {
                value = x;
            },
            None => {
                proof {
                    if all_digits(digits) {
                        lemma_digits_grow(digits, i - start + 1);
                    }
                }
                return 0;
            },
        }
        i += 1;
    }
    assert(digits.take(digits.len() as int) =~= digits);
    value
}

/// A version in its parts.
#[derive(Clone, Debug)]
pub struct StarVersion {
    pub str: String,
    pub major: u32,
    pub minor: u32,
    pub patch: u32,
    pub revision: String,
}

/// The part of a version before the first hyphen.
pub open spec fn semver_part(ver: Seq<char>) -> Seq<char> {
    match find_char(ver, '-') {
        Some(i) => ver.take(i),
        None => ver,
    }
}

/// The part of a version behind the first hyphen.
pub open spec fn revision_part(ver: Seq<char>) -> Seq<char> {
    match find_char(ver, '-') {
        Some(i) => ver.skip(i + 1),
        None => Seq::empty(),
    }
}

/// What is left of `s` behind its first dot; nothing where it has none.
pub open spec fn behind_dot(s: Option<Seq<char>>) -> Option<Seq<char>> {
    match s {
        None => None,
        Some(x) => match find_char(x, '.') {
            Some(i) => Some(x.skip(i + 1)),
            None => None,
        },
    }
}

/// The number at the beginning of `s`, up to its first dot; 0 where
/// there is nothing.
pub open spec fn leading_number(s: Option<Seq<char>>) -> int {
    match s {
        None => 0,
        Some(x) => match find_char(x, '.') {
            Some(i) => number_or_zero(x.take(i)),
            None => number_or_zero(x),
        },
    }
}

impl StarVersion {
    /// The parts of a version: what stands before the first hyphen names
    /// the major, minor and patch numbers, with dots between them, and
    /// what stands behind it is the revision. A number that is missing or
    /// is no number counts as 0.
    pub fn from_str(ver: String) -> (r: StarVersion)
        ensures
            r.str@ == ver@,
            r.major == leading_number(Some(semver_part(ver@))),
            r.minor == leading_number(behind_dot(Some(semver_part(ver@)))),
            r.patch == leading_number(behind_dot(behind_dot(Some(semver_part(ver@))))),
            r.revision@ == revision_part(ver@),
    {
        let chars = to_chars(ver.as_str());
        proof {
            lemma_find_char_from(chars@, '-', 0);
        }
        let (end, revision) = match find_char_in(&chars, '-', 0) {
            Some(i) => {
                let rev = from_char_range(&chars, i + 1, chars.len());
                assert(rev@ =~= chars@.skip(i + 1));
                (i, rev)
            },
            None => (chars.len(), String::new()),
        };
        let ghost semver = chars@.subrange(0, end as int);
        assert(semver =~= semver_part(ver@));
        let (major, next) = StarVersion::next_number(&chars, Some(0), end);
        let (minor, next) = StarVersion::next_number(&chars, next, end);
        let (patch, _) = StarVersion::next_number(&chars, next, end);
        StarVersion { str: ver, major, minor, patch, revision }
    }

    /// The number that begins at `from`, and where what is left behind
    /// the dot that ends it begins.
    fn next_number(chars: &Vec<char>, from: Option<usize>, end: usize) -> (r: (u32, Option<usize>))
        requires
            end <= chars@.len(),
            from matches Some(f) ==> f <= end,
        ensures
            r.0 == leading_number(
                match from {
                    Some(f) => Some(chars@.subrange(f as int, end as int)),
                    None => None,
                },
            ),
            match r.1 {
                Some(n) => from is Some && n <= end && behind_dot(
                    Some(chars@.subrange(from->0 as int, end as int)),
                ) == Some(chars@.subrange(n as int, end as int)),
                None => behind_dot(
                    match from {
                        Some(f) => Some(chars@.subrange(f as int, end as int)),
                        None => None,
                    },
                ) is None,
            },
    {
        match from {
            None => (0, None),
            Some(f) => {
                let ghost part = chars@.subrange(f as int, end as int);
                let mut i: usize = f;
                while i < end
                    invariant
                        f <= i <= end <= chars@.len(),
                        from == Some(f),
                        part == chars@.subrange(f as int, end as int),
                        forall|k: int| 0 <= k < i - f ==> part[k] != '.',
                    decreases end - i,
                {
                    if chars[i] == '.' {
                        proof {
                            lemma_find_char_from(part, '.', 0);
                            assert(part[i - f] == '.');
                            assert(find_char(part, '.') == Some((i - f) as int));
                            assert(part.take(i - f) =~= chars@.subrange(f as int, i as int));
                            assert(part.skip(i - f + 1) =~= chars@.subrange(i + 1, end as int));
                        }
                        return (parse_number(chars, f, i), Some(i + 1));
                    }
                    i += 1;
                }
                proof {
                    lemma_find_char_from(part, '.', 0);
                }
                (parse_number(chars, f, end), None)
            },
        }
    }
}

/// What a build file is told of a compiler.
#[derive(Clone, Debug)]
pub struct StarCompiler {
    pub id: String,
    pub version: StarVersion,
}

/// What a build file is told of an assembler.
#[derive(Clone, Debug)]
pub struct StarAssembler {
    pub id: String,
    pub version: StarVersion,
}

/// What a build file is told of the toolchain.
#[derive(Clone, Debug)]
pub struct StarToolchain {
    pub c_compiler: Option<StarCompiler>,
    pub cpp_compiler: Option<StarCompiler>,
    pub nasm_assembler: Option<StarAssembler>,
}

impl StarToolchain {
    /// What a build file is told of `toolchain`: of each tool that is
    /// there its family and its version.
    pub fn new(toolchain: &Toolchain) -> (r: StarToolchain)
        ensures
            r.c_compiler is Some <==> toolchain.c_compiler is Some,
            r.c_compiler matches Some(c) ==> c.id@ == toolchain.c_compiler->0.spec_id()
                && c.version.str@ == toolchain.c_compiler->0.spec_version(),
            r.cpp_compiler is Some <==> toolchain.cpp_compiler is Some,
            r.cpp_compiler matches Some(c) ==> c.id@ == toolchain.cpp_compiler->0.spec_id()
                && c.version.str@ == toolchain.cpp_compiler->0.spec_version(),
            r.nasm_assembler is Some <==> toolchain.nasm_assembler is Some,
            r.nasm_assembler matches Some(a) ==> a.id@ == toolchain.nasm_assembler->0.spec_id()
                && a.version.str@ == toolchain.nasm_assembler->0.spec_version(),
    {
        let c_compiler = match &toolchain.c_compiler {
            Some(compiler) => Some(
                StarCompiler {
                    id: compiler.id(),
                    version: StarVersion::from_str(compiler.version()),
                },
            ),
            None => None,
        };
        let cpp_compiler = match &toolchain.cpp_compiler {
            Some(compiler) => Some(
                StarCompiler {
                    id: compiler.id(),
                    version: StarVersion::from_str(compiler.version()),
                },
            ),
            None => None,
        };
        let nasm_assembler = match &toolchain.nasm_assembler {
            Some(assembler) => Some(
                StarAssembler {
                    id: assembler.id(),
                    version: StarVersion::from_str(assembler.version()),
                },
            ),
            None => None,
        };
        StarToolchain { c_compiler, cpp_compiler, nasm_assembler }
    }
}

} // verus!
