use vstd::prelude::*;

verus! {

/// `s` with every occurrence of `pat` replaced by `rep`, scanning from the
/// left and never looking inside a replacement already made. An empty
/// pattern leaves `s` as it is.
pub open spec fn replace_all(s: Seq<char>, pat: Seq<char>, rep: Seq<char>) -> Seq<char>
    decreases s.len(),
{
    if s.len() == 0 || pat.len() == 0 {
        s
    } else if pat.len() <= s.len() && s.subrange(0, pat.len() as int) == pat {
        rep + replace_all(s.skip(pat.len() as int), pat, rep)
    } else {
        seq![s[0]] + replace_all(s.skip(1), pat, rep)
    }
}

/// Whether `pat` occurs in `s` at position `i`.
pub open spec fn occurs_at(s: Seq<char>, pat: Seq<char>, i: int) -> bool {
    0 <= i && i + pat.len() <= s.len() && s.subrange(i, i + pat.len()) == pat
}

/// Whether `pat` occurs in `s` at char position `i`.
fn occurs_at_exec(s: &str, pat: &str, i: usize, n: usize, m: usize) -> (r: bool)
    requires
        n == s@.len(),
        m == pat@.len(),
        i + m <= n,
    ensures
        r == occurs_at(s@, pat@, i as int),
{
    let mut k: usize = 0;
    while k < m
        invariant
            n == s@.len(),
            m == pat@.len(),
            i + m <= n,
            k <= m,
            forall|j: int| 0 <= j < k ==> s@[i + j] == pat@[j],
        decreases m - k,
    {
        if s.get_char(i + k) != pat.get_char(k) {
            assert(s@.subrange(i as int, i + m)[k as int] != pat@[k as int]);
            return false;
        }
        k = k + 1;
    }
    assert(s@.subrange(i as int, i + m) =~= pat@);
    true
}

/// Replaces every occurrence of `pat` in `s` by `rep`, from left to right.
pub fn replace_str(s: &str, pat: &str, rep: &str) -> (r: String)
    requires
        pat@.len() > 0,
    ensures
        r@ == replace_all(s@, pat@, rep@),
{
    let n = s.unicode_len();
    let m = pat.unicode_len();
    let mut out = String::new();
    let mut last: usize = 0;
    let mut i: usize = 0;
    assert(s@.skip(0) =~= s@);
    assert(out@ + s@.subrange(0, 0) =~= Seq::<char>::empty());
    while i < n
        invariant
            n == s@.len(),
            m == pat@.len(),
            m > 0,
            last <= i <= n,
            replace_all(s@, pat@, rep@) == out@ + s@.subrange(last as int, i as int)
                + replace_all(s@.skip(i as int), pat@, rep@),
        decreases n - i,
    {
        let ghost rest = s@.skip(i as int);
        if m <= n - i && occurs_at_exec(s, pat, i, n, m) {
            assert(rest.subrange(0, m as int) =~= s@.subrange(i as int, i + m));
            assert(rest.skip(m as int) =~= s@.skip(i + m));
            out.append(s.substring_char(last, i));
            out.append(rep);
            last = i + m;
            i = i + m;
            assert(out@ + s@.subrange(last as int, i as int) =~= out@);
        } else {
            assert(!(m <= rest.len() && rest.subrange(0, m as int) == pat@)) by {
                if m <= rest.len() {
                    assert(rest.subrange(0, m as int) =~= s@.subrange(i as int, i + m));
                }
            }
            assert(rest.skip(1) =~= s@.skip(i + 1));
            assert(s@.subrange(last as int, i as int) + seq![rest[0]] =~= s@.subrange(
                last as int,
                i + 1,
            ));
            i = i + 1;
        }
    }
    assert(s@.skip(n as int) =~= Seq::<char>::empty());
    out.append(s.substring_char(last, n));
    assert(out@ =~= replace_all(s@, pat@, rep@));
    out
}

/// The export identifier's source before the case change: the stem with the
/// suffixes `.abi`, `-abi` and `_abi` removed, in that order, each wherever
/// it occurs.
pub open spec fn clean_of(stem: Seq<char>) -> Seq<char> {
    replace_all(
        replace_all(replace_all(stem, ".abi"@, Seq::empty()), "-abi"@, Seq::empty()),
        "_abi"@,
        Seq::empty(),
    )
}

/// The export identifier for an already upper-cased clean name: `-` and `.`
/// become `_`, and `_ABI` follows.
pub open spec fn ident_of(upper: Seq<char>) -> Seq<char> {
    replace_all(replace_all(upper, "-"@, "_"@), "."@, "_"@) + "_ABI"@
}

/// The generated module's file name for a clean name: `.` becomes `-`, and
/// the extension `.ts` follows.
pub open spec fn file_name_of(clean: Seq<char>) -> Seq<char> {
    replace_all(clean, "."@, "-"@) + ".ts"@
}

/// The generated module's text: one exported constant, frozen with
/// `as const`, and a final newline.
pub open spec fn module_text(ident: Seq<char>, json: Seq<char>) -> Seq<char> {
    "export const "@ + ident + " = "@ + json + " as const;\n"@
}

/// The export identifier derived from a file stem.
pub open spec fn stem_ident(stem: Seq<char>) -> Seq<char> {
    ident_of(upper_of(clean_of(stem)))
}

/// The generated module's file name derived from a file stem.
pub open spec fn stem_file_name(stem: Seq<char>) -> Seq<char> {
    file_name_of(clean_of(stem))
}

/// Replacing a pattern that does not occur leaves the text as it is.
pub proof fn lemma_replace_absent(s: Seq<char>, pat: Seq<char>, rep: Seq<char>)
    requires
        forall|i: int| !occurs_at(s, pat, i),
    ensures
        replace_all(s, pat, rep) == s,
    decreases s.len(),
{
    if s.len() > 0 && pat.len() > 0 {
        let t = s.skip(1);
        assert(!occurs_at(s, pat, 0));
        assert forall|i: int| !occurs_at(t, pat, i) by {
            if occurs_at(t, pat, i) {
                assert(t.subrange(i, i + pat.len()) =~= s.subrange(i + 1, i + 1 + pat.len()));
                assert(occurs_at(s, pat, i + 1));
            }
        }
        lemma_replace_absent(t, pat, rep);
        assert(seq![s[0]] + t =~= s);
    }
}

/// A stem in which none of `.abi`, `-abi` and `_abi` occurs is its own clean
/// name.
pub proof fn lemma_clean_keeps_plain_stem(stem: Seq<char>)
    requires
        forall|i: int| !occurs_at(stem, ".abi"@, i),
        forall|i: int| !occurs_at(stem, "-abi"@, i),
        forall|i: int| !occurs_at(stem, "_abi"@, i),
    ensures
        clean_of(stem) == stem,
{
    lemma_replace_absent(stem, ".abi"@, Seq::empty());
    lemma_replace_absent(stem, "-abi"@, Seq::empty());
    lemma_replace_absent(stem, "_abi"@, Seq::empty());
}

/// What `str::to_uppercase` returns for `s`.
pub uninterp spec fn upper_of(s: Seq<char>) -> Seq<char>;

/// Relies on `str::to_uppercase`: Unicode upper-casing, which depends on the
/// characters of `s` alone.
#[verifier::external_body]
fn to_upper(s: &str) -> (r: String)
    ensures
        r@ == upper_of(s@),
{
    s.to_uppercase()
}

/// Removes the ABI suffixes from a file stem (see `clean_of`).
pub fn clean_name(stem: &str) -> (r: String)
    ensures
        r@ == clean_of(stem@),
{
    proof {
        reveal_strlit(".abi");
        reveal_strlit("-abi");
        reveal_strlit("_abi");
        reveal_strlit("");
    }
    assert(""@ =~= Seq::<char>::empty());
    let a = replace_str(stem, ".abi", "");
    let b = replace_str(a.as_str(), "-abi", "");
    replace_str(b.as_str(), "_abi", "")
}

/// The export identifier for a clean name that is already upper-cased.
pub fn export_name_from_upper(upper: &str) -> (r: String)
    ensures
        r@ == ident_of(upper@),
{
    proof {
        reveal_strlit("-");
        reveal_strlit(".");
    }
    let a = replace_str(upper, "-", "_");
    let b = replace_str(a.as_str(), ".", "_");
    b.concat("_ABI")
}

/// The export identifier for a clean name: upper-cased, then as in
/// `export_name_from_upper`.
pub fn export_name(clean: &str) -> (r: String)
    ensures
        r@ == ident_of(upper_of(clean@)),
{
    let upper = to_upper(clean);
    export_name_from_upper(upper.as_str())
}

/// The generated module's file name for a clean name.
pub fn output_file_name(clean: &str) -> (r: String)
    ensures
        r@ == file_name_of(clean@),
{
    proof {
        reveal_strlit(".");
    }
    let a = replace_str(clean, ".", "-");
    a.concat(".ts")
}

/// The generated module's text for an identifier and a JSON text.
pub fn module_source(ident: &str, json: &str) -> (r: String)
    ensures
        r@ == module_text(ident@, json@),
{
    let mut out = String::from_str("export const ");
    out.append(ident);
    out.append(" = ");
    out.append(json);
    out.append(" as const;\n");
    out
}

} // verus!
