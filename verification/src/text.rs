//! Text helpers: comparison, prefixes, trimming and case folding over the
//! character sequence of a string.
use vstd::prelude::*;

verus! {

/// `String::push` appends one character to the end of the string.
pub assume_specification[ String::push ](s: &mut String, c: char)
    ensures
        final(s)@ == old(s)@.push(c),
;

/// `String::from(&str)` copies the characters of the slice.
pub assume_specification<'a>[ <String as From<&'a str>>::from ](s: &str) -> (r: String)
    ensures
        r@ == s@,
;

/// The reflexive `From` conversion returns its argument unchanged.
pub assume_specification<Same>[ <Same as From<Same>>::from ](same: Same) -> (r: Same)
    ensures
        r == same,
;

#[verifier::external_type_specification]
#[verifier::external_body]
pub struct ExFromUtf8Error(std::string::FromUtf8Error);

/// `String::from_utf8` accepts exactly the byte sequences that are valid UTF-8
/// and returns the text that they encode.
pub assume_specification[ String::from_utf8 ](bytes: Vec<u8>) -> (r: Result<
    String,
    std::string::FromUtf8Error,
>)
    ensures
        r is Ok <==> vstd::utf8::valid_utf8(bytes@),
        r matches Ok(s) ==> s@ == vstd::utf8::decode_utf8(bytes@),
;

/// The characters with the Unicode `White_Space` property.
pub open spec fn white_space(c: char) -> bool {
    ||| '\u{9}' <= c <= '\u{D}'
    ||| c == '\u{20}'
    ||| c == '\u{85}'
    ||| c == '\u{A0}'
    ||| c == '\u{1680}'
    ||| '\u{2000}' <= c <= '\u{200A}'
    ||| c == '\u{2028}'
    ||| c == '\u{2029}'
    ||| c == '\u{202F}'
    ||| c == '\u{205F}'
    ||| c == '\u{3000}'
}

/// `s` without its leading and trailing white space.
pub open spec fn trimmed(s: Seq<char>) -> Seq<char>
    decreases s.len(),
{
    if s.len() == 0 {
        s
    } else if white_space(s.first()) {
        trimmed(s.drop_first())
    } else if white_space(s.last()) {
        trimmed(s.drop_last())
    } else {
        s
    }
}

/// Whether `s` holds nothing but white space.
pub open spec fn blank(s: Seq<char>) -> bool {
    forall|i: int| 0 <= i < s.len() ==> white_space(#[trigger] s[i])
}

/// `str::trim` removes the leading and trailing characters that have the
/// Unicode `White_Space` property.
pub assume_specification[ str::trim ](s: &str) -> (t: &str)
    ensures
        t@ == trimmed(s@),
;

/// The text that `str::to_lowercase` returns for `s`: the Unicode lowercase
/// mapping of the whole string.
pub uninterp spec fn lowercase(s: Seq<char>) -> Seq<char>;

/// The ASCII lowercase letter of `c`, or `c` itself.
pub open spec fn ascii_lower(c: char) -> char {
    if 'A' <= c <= 'Z' {
        (c as u32 + 32) as char
    } else {
        c
    }
}

/// `s` with every ASCII capital letter made small.
pub open spec fn ascii_lowercase(s: Seq<char>) -> Seq<char> {
    s.map_values(|c: char| ascii_lower(c))
}

/// Whether `s` holds no ASCII capital letter.
pub open spec fn no_capitals(s: Seq<char>) -> bool {
    forall|i: int| 0 <= i < s.len() ==> !('A' <= #[trigger] s[i] <= 'Z')
}

/// `str::to_lowercase` is a function of the text alone. What it returns is
/// lowercase, so it holds no ASCII capital letter. On ASCII text it maps `A` to
/// `Z` onto `a` to `z` and keeps every other character.
pub assume_specification[ str::to_lowercase ](s: &str) -> (r: String)
    ensures
        r@ == lowercase(s@),
        no_capitals(r@),
        vstd::utf8::is_ascii_chars(s@) ==> r@ == ascii_lowercase(s@),
;

/// Whether `s` begins with the characters of `prefix`.
pub fn has_prefix(s: &str, prefix: &str) -> (found: bool)
    ensures
        found == prefix@.is_prefix_of(s@),
{
    let mut rest = s.chars();
    let mut wanted = prefix.chars();
    let ghost mut seen: int = 0;
    loop
        invariant
            vstd::std_specs::iter::IteratorSpec::obeys_prophetic_iter_laws(&rest),
            vstd::std_specs::iter::IteratorSpec::obeys_prophetic_iter_laws(&wanted),
            0 <= seen <= s@.len(),
            0 <= seen <= prefix@.len(),
            vstd::std_specs::iter::IteratorSpec::remaining(&rest) == s@.skip(seen),
            vstd::std_specs::iter::IteratorSpec::remaining(&wanted) == prefix@.skip(seen),
            s@.take(seen) == prefix@.take(seen),
        decreases s@.len() - seen,
    {
        match wanted.next() {
            None => {
                assert(prefix@.take(seen) == prefix@);
                return true;
            },
            Some(p) => {
                match rest.next() {
                    None => {
                        return false;
                    },
                    Some(c) => {
                        if c != p {
                            assert(s@[seen] != prefix@[seen]);
                            return false;
                        }
                        proof {
                            assert(s@.skip(seen).drop_first() == s@.skip(seen + 1));
                            assert(prefix@.skip(seen).drop_first() == prefix@.skip(seen + 1));
                            assert(s@.take(seen + 1) == s@.take(seen).push(c));
                            assert(prefix@.take(seen + 1) == prefix@.take(seen).push(p));
                            seen = seen + 1;
                        }
                    },
                }
            },
        }
    }
}

/// Whether `a` and `b` hold the same characters.
pub fn same_text(a: &str, b: &str) -> (same: bool)
    ensures
        same == (a@ == b@),
{
    let forth = has_prefix(a, b);
    let back = has_prefix(b, a);
    proof {
        if forth && back {
            assert(a@ =~= b@);
        }
        if a@ == b@ {
            assert(a@.subrange(0, a@.len() as int) == a@);
        }
    }
    forth && back
}

/// Trimmed text has no white space at either end.
pub proof fn law_trimmed_ends(s: Seq<char>)
    ensures
        trimmed(s).len() > 0 ==> !white_space(trimmed(s).first()) && !white_space(
            trimmed(s).last(),
        ),
    decreases s.len(),
{
    if s.len() > 0 {
        if white_space(s.first()) {
            law_trimmed_ends(s.drop_first());
        } else if white_space(s.last()) {
            law_trimmed_ends(s.drop_last());
        }
    }
}

/// Trimming twice is trimming once.
pub proof fn law_trim_idempotent(s: Seq<char>)
    ensures
        trimmed(trimmed(s)) == trimmed(s),
{
    law_trimmed_ends(s);
}

/// Trimming leaves nothing exactly where the text is all white space.
pub proof fn law_trimmed_empty(s: Seq<char>)
    ensures
        trimmed(s).len() == 0 <==> blank(s),
    decreases s.len(),
{
    if s.len() > 0 {
        if white_space(s.first()) {
            let rest = s.drop_first();
            law_trimmed_empty(rest);
            if blank(rest) {
                assert forall|i: int| 0 <= i < s.len() implies white_space(#[trigger] s[i]) by {
                    if i > 0 {
                        assert(rest[i - 1] == s[i]);
                    }
                }
            }
            if blank(s) {
                assert forall|i: int| 0 <= i < rest.len() implies white_space(
                    #[trigger] rest[i],
                ) by {
                    assert(s[i + 1] == rest[i]);
                }
            }
        } else {
            assert(!blank(s));
            if white_space(s.last()) {
                let rest = s.drop_last();
                law_trimmed_empty(rest);
                assert(rest[0] == s[0]);
            }
        }
    }
}

/// Whether `t` is `s` without the white space at its ends: a stretch of `s` with
/// nothing but white space before and behind it, and none at its own ends.
pub open spec fn trims_to(s: Seq<char>, t: Seq<char>) -> bool {
    &&& exists|i: int, j: int|
        0 <= i <= j <= s.len() && t == #[trigger] s.subrange(i, j) && blank(s.take(i)) && blank(
            s.skip(j),
        )
    &&& t.len() > 0 ==> !white_space(t.first()) && !white_space(t.last())
}

proof fn lemma_blank_more(s: Seq<char>, c: char)
    requires
        blank(s),
        white_space(c),
    ensures
        blank(s.push(c)),
        blank(seq![c] + s),
{
    assert forall|k: int| 0 <= k < (seq![c] + s).len() implies white_space(
        #[trigger] (seq![c] + s)[k],
    ) by {
        if k > 0 {
            assert((seq![c] + s)[k] == s[k - 1]);
        }
    }
}

/// The stretch of `s` that is left when it is trimmed.
proof fn lemma_trimmed_stretch(s: Seq<char>) -> (ends: (int, int))
    ensures
        0 <= ends.0 <= ends.1 <= s.len(),
        trimmed(s) == s.subrange(ends.0, ends.1),
        blank(s.take(ends.0)),
        blank(s.skip(ends.1)),
    decreases s.len(),
{
    if s.len() == 0 {
        assert(s.subrange(0, 0) =~= s);
        (0, 0)
    } else if white_space(s.first()) {
        let rest = s.drop_first();
        let (i, j) = lemma_trimmed_stretch(rest);
        assert(s.subrange(i + 1, j + 1) =~= rest.subrange(i, j));
        assert(s.skip(j + 1) =~= rest.skip(j));
        lemma_blank_more(rest.take(i), s.first());
        assert(s.take(i + 1) =~= seq![s.first()] + rest.take(i));
        (i + 1, j + 1)
    } else if white_space(s.last()) {
        let rest = s.drop_last();
        let (i, j) = lemma_trimmed_stretch(rest);
        assert(s.subrange(i, j) =~= rest.subrange(i, j));
        assert(s.take(i) =~= rest.take(i));
        lemma_blank_more(rest.skip(j), s.last());
        assert(s.skip(j) =~= rest.skip(j).push(s.last()));
        (i, j)
    } else {
        assert(s.subrange(0, s.len() as int) =~= s);
        (0, s.len() as int)
    }
}

/// Trimming takes away the white space at the ends and nothing else.
pub proof fn law_trimmed(s: Seq<char>)
    ensures
        trims_to(s, trimmed(s)),
{
    law_trimmed_ends(s);
    let (i, j) = lemma_trimmed_stretch(s);
    assert(trimmed(s) == s.subrange(i, j));
}

/// A text begins with another exactly where it is that text and something behind
/// it, and two texts are the same exactly where they hold the same characters.
pub proof fn law_comparisons(a: &str, b: &str, prefix: bool, same: bool)
    requires
        call_ensures(has_prefix, (a, b), prefix),
        call_ensures(same_text, (a, b), same),
    ensures
        prefix <==> exists|rest: Seq<char>| a@ == #[trigger] (b@ + rest),
        same <==> a@.len() == b@.len() && forall|i: int|
            0 <= i < a@.len() ==> #[trigger] a@[i] == b@[i],
{
    if prefix {
        assert(a@ =~= b@ + a@.skip(b@.len() as int));
    }
    if exists|rest: Seq<char>| a@ == #[trigger] (b@ + rest) {
        let rest = choose|rest: Seq<char>| a@ == #[trigger] (b@ + rest);
        assert(a@.subrange(0, b@.len() as int) =~= b@);
    }
    if a@.len() == b@.len() && forall|i: int| 0 <= i < a@.len() ==> #[trigger] a@[i] == b@[i] {
        assert(a@ =~= b@);
    }
}

} // verus!
