//! Mapping of arbitrary, possibly hostile names to names that are safe to
//! use as a single path component.

use vstd::prelude::*;

verus! {

/// Whether a scalar value has Unicode's Alphabetic property or one of the
/// numeric general categories, as the standard library's tables have it.
/// Only consulted for values beyond ASCII.
pub uninterp spec fn unicode_alphanumeric(c: char) -> bool;

/// `c` is one of `A-Z`, `a-z`, `0-9`.
pub open spec fn is_ascii_alphanumeric(c: char) -> bool {
    ||| 'a' <= c <= 'z'
    ||| 'A' <= c <= 'Z'
    ||| '0' <= c <= '9'
}

/// `c` is `.`, `_` or `-`.
pub open spec fn is_name_punctuation(c: char) -> bool {
    c == '.' || c == '_' || c == '-'
}

/// The characters that a sanitized name keeps: letters, digits, `.`, `_`
/// and `-`. Within ASCII the letters and digits are spelled out; beyond it
/// Unicode decides.
pub open spec fn is_kept(c: char) -> bool {
    if c <= '\x7f' {
        is_ascii_alphanumeric(c) || is_name_punctuation(c)
    } else {
        unicode_alphanumeric(c)
    }
}

/// What a single character becomes: itself if it is kept, `_` otherwise.
pub open spec fn replaced(c: char) -> char {
    if is_kept(c) {
        c
    } else {
        '_'
    }
}

/// `s` with every character that is not kept replaced by `_`.
pub open spec fn replace_rejected(s: Seq<char>) -> Seq<char> {
    Seq::new(s.len(), |i: int| replaced(s[i]))
}

/// The names that must never be handed to the file system: the empty name
/// and the two directory links.
pub open spec fn is_reserved(s: Seq<char>) -> bool {
    s.len() == 0 || s == seq!['.'] || s == seq!['.', '.']
}

/// The name used in place of a reserved one.
pub open spec fn fallback_name() -> Seq<char> {
    "sanitized_file"@
}

/// The sanitized form of `s`.
pub open spec fn sanitized(s: Seq<char>) -> Seq<char> {
    if is_reserved(replace_rejected(s)) {
        fallback_name()
    } else {
        replace_rejected(s)
    }
}

/// A name that can be joined to a directory and stays a direct child of it:
/// not empty, made of kept characters only, and neither `.` nor `..`.
pub open spec fn is_safe_name(s: Seq<char>) -> bool {
    &&& !is_reserved(s)
    &&& forall|i: int| 0 <= i < s.len() ==> is_kept(#[trigger] s[i])
}

/// Every character of `s` is ASCII.
pub open spec fn all_ascii(s: Seq<char>) -> bool {
    forall|i: int| 0 <= i < s.len() ==> #[trigger] s[i] <= '\x7f'
}

/// Every character of `s` is one of `A-Z`, `a-z`, `0-9`, `.`, `_`, `-`.
pub open spec fn all_portable(s: Seq<char>) -> bool {
    forall|i: int|
        0 <= i < s.len() ==> is_ascii_alphanumeric(#[trigger] s[i]) || is_name_punctuation(s[i])
}

/// `char::is_alphanumeric`, asked only of values beyond ASCII: the answer is
/// whatever the standard library's Unicode tables say of `c`, and the same
/// for the same `c`.
#[verifier::external_body]
fn is_alphanumeric_beyond_ascii(c: char) -> (r: bool)
    requires
        c > '\x7f',
    ensures
        r == unicode_alphanumeric(c),
{
    c.is_alphanumeric()
}

/// `String::push`: appends `c` to the end of `s`.
#[verifier::external_body]
fn push_char(s: &mut String, c: char)
    ensures
        final(s)@ == old(s)@.push(c),
{
    s.push(c)
}

/// Decides whether `c` is kept in a sanitized name.
pub fn keeps(c: char) -> (r: bool)
    ensures
        r == is_kept(c),
{
    if c <= '\x7f' {
        ('a' <= c && c <= 'z') || ('A' <= c && c <= 'Z') || ('0' <= c && c <= '9') || c == '.'
            || c == '_' || c == '-'
    } else {
        is_alphanumeric_beyond_ascii(c)
    }
}

/// The fallback name is itself safe, and sanitizing leaves it alone.
pub proof fn lemma_fallback_is_safe()
    ensures
        is_safe_name(fallback_name()),
        replace_rejected(fallback_name()) == fallback_name(),
{
    reveal_strlit("sanitized_file");
    let f = fallback_name();
    assert(f.len() == 14);
    assert forall|i: int| 0 <= i < f.len() implies is_kept(#[trigger] f[i]) by {}
    assert(f != seq!['.']);
    assert(f != seq!['.', '.']);
    assert(replace_rejected(f) =~= f);
}

/// Turns an arbitrary name into a safe one: every character other than a
/// letter, a digit, `.`, `_` or `-` becomes `_`, and a result that is empty,
/// `.` or `..` is replaced by the fallback name.
pub fn sanitize_filename(filename: String) -> (r: String)
    ensures
        r@ == sanitized(filename@),
        is_safe_name(r@),
{
    let name = filename.as_str();
    let mut out = String::new();
    for c in it: name.chars()
        invariant
            it.seq() == name@,
            out@ == replace_rejected(name@.subrange(0, it.index())),
    {
        let d = if keeps(c) { c } else { '_' };
        push_char(&mut out, d);
        proof {
            assert(out@ =~= replace_rejected(name@.subrange(0, it.index() + 1)));
        }
    }
    proof {
        assert(name@.subrange(0, name@.len() as int) =~= name@);
        lemma_fallback_is_safe();
        lemma_replace_rejected_keeps(filename@);
    }
    if is_reserved_name(&out) {
        String::from_str("sanitized_file")
    } else {
        out
    }
}

/// Whether `s` is empty, `.` or `..`.
pub fn is_reserved_name(s: &String) -> (r: bool)
    ensures
        r == is_reserved(s@),
{
    let dot = String::from_str(".");
    let dots = String::from_str("..");
    proof {
        reveal_strlit(".");
        reveal_strlit("..");
        assert(dot@ =~= seq!['.']);
        assert(dots@ =~= seq!['.', '.']);
    }
    s.as_str().is_empty() || *s == dot || *s == dots
}

/// A name that went through [`sanitize_filename`], and is known to be safe
/// for that reason.
#[derive(Debug, PartialEq, Eq, Hash)]
pub struct SanitizedName {
    name: String,
}

impl View for SanitizedName {
    type V = Seq<char>;

    closed spec fn view(&self) -> Seq<char> {
        self.name@
    }
}

impl SanitizedName {
    /// What holds of every value of this type.
    #[verifier::type_invariant]
    pub open spec fn is_safe(self) -> bool {
        is_safe_name(self@)
    }

    /// The sanitized form of `name`.
    pub fn new(name: String) -> (r: Self)
        ensures
            r@ == sanitized(name@),
    {
        SanitizedName { name: sanitize_filename(name) }
    }

    /// The name as text.
    pub fn as_str(&self) -> (r: &str)
        ensures
            r@ == self@,
            is_safe_name(r@),
    {
        proof {
            use_type_invariant(self);
        }
        self.name.as_str()
    }
}

impl Clone for SanitizedName {
    fn clone(&self) -> (r: Self)
        ensures
            r@ == self@,
    {
        proof {
            use_type_invariant(self);
        }
        SanitizedName { name: self.name.clone() }
    }
}

/// After the replacement every character is a kept one.
pub proof fn lemma_replace_rejected_keeps(s: Seq<char>)
    ensures
        replace_rejected(s).len() == s.len(),
        forall|i: int| 0 <= i < s.len() ==> is_kept(#[trigger] replace_rejected(s)[i]),
{
}

/// Replacing leaves a name alone whose characters are all kept already.
pub proof fn lemma_replace_rejected_fixes_kept(s: Seq<char>)
    requires
        forall|i: int| 0 <= i < s.len() ==> is_kept(#[trigger] s[i]),
    ensures
        replace_rejected(s) == s,
{
    assert(replace_rejected(s) =~= s);
}

/// A safe name is returned unchanged.
pub proof fn lemma_sanitized_fixes_safe(s: Seq<char>)
    requires
        is_safe_name(s),
    ensures
        sanitized(s) == s,
{
    lemma_replace_rejected_fixes_kept(s);
}

/// Whatever the input, the sanitized name is safe: it is not empty, not `.`
/// and not `..`, and each of its characters is a letter, a digit, `.`, `_`
/// or `-`.
pub proof fn lemma_sanitized_is_safe(s: Seq<char>)
    ensures
        is_safe_name(sanitized(s)),
        sanitized(s).len() > 0,
        sanitized(s) != seq!['.'],
        sanitized(s) != seq!['.', '.'],
{
    lemma_fallback_is_safe();
    lemma_replace_rejected_keeps(s);
}

/// Sanitizing twice gives what sanitizing once gives.
pub proof fn lemma_sanitized_idempotent(s: Seq<char>)
    ensures
        sanitized(sanitized(s)) == sanitized(s),
{
    lemma_sanitized_is_safe(s);
    lemma_sanitized_fixes_safe(sanitized(s));
}

/// No path separator survives: a sanitized name holds neither `/` nor `\`.
pub proof fn lemma_sanitized_has_no_separator(s: Seq<char>)
    ensures
        forall|i: int|
            0 <= i < sanitized(s).len() ==> #[trigger] sanitized(s)[i] != '/' && sanitized(s)[i]
                != '\\',
{
    lemma_sanitized_is_safe(s);
}

/// The sanitized form of an ASCII name is made of `A-Z`, `a-z`, `0-9`, `.`,
/// `_` and `-` alone.
pub proof fn lemma_sanitized_ascii_is_portable(s: Seq<char>)
    requires
        all_ascii(s),
    ensures
        all_portable(sanitized(s)),
{
    lemma_fallback_is_safe();
    let r = sanitized(s);
    assert forall|i: int| 0 <= i < r.len() implies is_ascii_alphanumeric(#[trigger] r[i])
        || is_name_punctuation(r[i]) by {
        if is_reserved(replace_rejected(s)) {
            reveal_strlit("sanitized_file");
        } else {
            assert(r[i] == replaced(s[i]));
            assert(s[i] <= '\x7f');
        }
    }
}

} // verus!
