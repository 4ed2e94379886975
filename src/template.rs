use vstd::prelude::*;

use crate::error::ErrorKind;

verus! {

/// The identifier text that `syn` reads when it parses the whole of the ASCII
/// string `s` as one identifier, or `None` where it does not accept `s` as one.
pub uninterp spec fn parsed_ident(s: Seq<char>) -> Option<Seq<char>>;

/// Every character of `s` is ASCII.
pub open spec fn is_ascii_text(s: Seq<char>) -> bool {
    forall|i: int| 0 <= i < s.len() ==> (s[i] as u32) < 128
}

/// Relies on `syn::parse_str::<syn::Ident>`, which accepts a string holding exactly
/// one identifier token that is not a keyword, and on `Ident`'s `to_string` for the
/// text of that identifier.
///
/// `proc-macro2` lexes with the compiler's lexer inside a procedural macro and
/// with its own elsewhere; the two may differ on non-ASCII text (the compiler
/// normalises identifiers, and the Unicode tables differ), so the result is named
/// for ASCII input only, where they agree.
#[verifier::external_body]
fn parse_ident(s: &str) -> (r: Option<String>)
    ensures
        is_ascii_text(s@) ==> match r {
            Some(t) => parsed_ident(s@) == Some(t@),
            None => parsed_ident(s@) is None,
        },
{
    match syn::parse_str::<syn::Ident>(s) {
        Ok(ident) => Some(ident.to_string()),
        Err(_) => None,
    }
}

/// A fragment of a template is empty, or is exactly one identifier (stated for
/// ASCII fragments, on which `parsed_ident` is named).
pub open spec fn is_fragment(s: Seq<char>) -> bool {
    s.len() == 0 || parsed_ident(s) == Some(s)
}

/// `s` is `before`, one `%`, then `after`, with no other `%` in it.
pub open spec fn splits_at_marker(s: Seq<char>, before: Seq<char>, after: Seq<char>) -> bool {
    &&& s == before + seq!['%'] + after
    &&& !before.contains('%')
    &&& !after.contains('%')
}

/// `s` is a well-formed template whose text before and after the marker are
/// `before` and `after`.
pub open spec fn is_template(s: Seq<char>, before: Seq<char>, after: Seq<char>) -> bool {
    &&& splits_at_marker(s, before, after)
    &&& is_fragment(before)
    &&& is_fragment(after)
}

/// `s` holds exactly one marker.
pub open spec fn has_one_marker(s: Seq<char>) -> bool {
    exists|before: Seq<char>, after: Seq<char>| #[trigger] splits_at_marker(s, before, after)
}

/// `s` is a well-formed template.
pub open spec fn is_template_text(s: Seq<char>) -> bool {
    exists|before: Seq<char>, after: Seq<char>| #[trigger] is_template(s, before, after)
}

/// Where `s` splits at its marker, the marker stands at the length of `before`,
/// and nowhere else.
pub proof fn lemma_marker_position(s: Seq<char>, before: Seq<char>, after: Seq<char>)
    requires
        splits_at_marker(s, before, after),
    ensures
        s.len() == before.len() + 1 + after.len(),
        s[before.len() as int] == '%',
        forall|j: int| 0 <= j < s.len() && j != before.len() ==> s[j] != '%',
        before == s.subrange(0, before.len() as int),
        after == s.subrange(before.len() as int + 1, s.len() as int),
{
    assert forall|j: int| 0 <= j < s.len() && j != before.len() implies s[j] != '%' by {
        if j < before.len() {
            assert(s[j] == before[j]);
        } else {
            assert(s[j] == after[j - before.len() - 1]);
        }
    }
    assert(before =~= s.subrange(0, before.len() as int));
    assert(after =~= s.subrange(before.len() as int + 1, s.len() as int));
}

/// A template splits at its marker in one way only.
pub proof fn lemma_split_unique(
    s: Seq<char>,
    b1: Seq<char>,
    a1: Seq<char>,
    b2: Seq<char>,
    a2: Seq<char>,
)
    requires
        splits_at_marker(s, b1, a1),
        splits_at_marker(s, b2, a2),
    ensures
        b1 == b2,
        a1 == a2,
{
    lemma_marker_position(s, b1, a1);
    lemma_marker_position(s, b2, a2);
}

/// The text of each token.
pub open spec fn token_texts(tokens: Seq<String>) -> Seq<Seq<char>> {
    tokens.map_values(|t: String| t@)
}

/// Every token is ASCII text.
pub open spec fn all_ascii(toks: Seq<Seq<char>>) -> bool {
    forall|i: int| 0 <= i < toks.len() ==> #[trigger] is_ascii_text(toks[i])
}

/// The tokens `toks` spell a template with `before` and `after` around its
/// marker: the marker is a token of its own, with at most one further token on
/// each side of it.
pub open spec fn spells_template(toks: Seq<Seq<char>>, before: Seq<char>, after: Seq<char>) -> bool {
    let m = seq!['%'];
    &&& before != m
    &&& after != m
    &&& {
        ||| toks == seq![m] && before.len() == 0 && after.len() == 0
        ||| toks == seq![before, m] && before.len() > 0 && after.len() == 0
        ||| toks == seq![m, after] && before.len() == 0 && after.len() > 0
        ||| toks == seq![before, m, after] && before.len() > 0 && after.len() > 0
    }
}

/// Tokens spell a template in one way only.
pub proof fn lemma_spelling_unique(
    toks: Seq<Seq<char>>,
    b1: Seq<char>,
    a1: Seq<char>,
    b2: Seq<char>,
    a2: Seq<char>,
)
    requires
        spells_template(toks, b1, a1),
        spells_template(toks, b2, a2),
    ensures
        b1 == b2,
        a1 == a2,
{
    let m = seq!['%'];
    if toks.len() == 2 {
        if toks[0] == m {
            assert(b1.len() == 0 && b2.len() == 0);
            assert(a1 == toks[1] && a2 == toks[1]);
            assert(b1 =~= b2);
        } else {
            assert(a1.len() == 0 && a2.len() == 0);
            assert(b1 == toks[0] && b2 == toks[0]);
            assert(a1 =~= a2);
        }
    } else if toks.len() == 1 {
        assert(b1 =~= b2);
        assert(a1 =~= a2);
    } else {
        assert(b1 == toks[0] && b2 == toks[0]);
        assert(a1 == toks[2] && a2 == toks[2]);
    }
}

/// A name template: the text put before and after a field's name.
#[derive(Debug)]
pub struct Template {
    pub before: String,
    pub after: String,
}

impl Clone for Template {
    fn clone(&self) -> (r: Self)
        ensures
            r == *self,
    {
        Template { before: self.before.clone(), after: self.after.clone() }
    }
}

impl Template {
    /// The name that this template makes of `name`.
    pub open spec fn apply(&self, name: Seq<char>) -> Seq<char> {
        self.before@ + name + self.after@
    }

    pub fn new(before: String, after: String) -> (r: Self)
        ensures
            r.before == before,
            r.after == after,
    {
        Template { before, after }
    }

    pub fn from_str(before: &str, after: &str) -> (r: Self)
        ensures
            r.before@ == before@,
            r.after@ == after@,
    {
        Template::new(before.to_owned(), after.to_owned())
    }

    /// The text before, then `item`, then the text after.
    pub fn format(&self, item: &str) -> (r: String)
        ensures
            r@ == self.apply(item@),
    {
        let mut name = self.before.clone();
        name.append(item);
        name.append(self.after.as_str());
        name
    }

    /// Splits `s` at its one `%` marker; the fragments are not checked.
    pub fn split(s: &str) -> (r: Result<Template, ErrorKind>)
        ensures
            match r {
                Ok(t) => splits_at_marker(s@, t.before@, t.after@),
                Err(e) => e == ErrorKind::MalformedTemplate && !has_one_marker(s@),
            },
    {
        let n = s.unicode_len();
        let mut marker: Option<usize> = None;
        let mut i: usize = 0;
        while i < n
            invariant
                n == s@.len(),
                i <= n,
                match marker {
                    None => forall|j: int| 0 <= j < i ==> s@[j] != '%',
                    Some(m) => m < i && s@[m as int] == '%' && forall|j: int|
                        0 <= j < i && j != m ==> s@[j] != '%',
                },
            decreases n - i,
        {
            let c = s.get_char(i);
            if c == '%' {
                if let Some(m) = marker {
                    proof {
                        assert forall|b: Seq<char>, a: Seq<char>|
                            !#[trigger] splits_at_marker(s@, b, a) by {
                            if splits_at_marker(s@, b, a) {
                                lemma_marker_position(s@, b, a);
                            }
                        }
                    }
                    return Err(ErrorKind::MalformedTemplate);
                }
                marker = Some(i);
            }
            i += 1;
        }
        match marker {
            None => {
                proof {
                    assert forall|b: Seq<char>, a: Seq<char>|
                        !#[trigger] splits_at_marker(s@, b, a) by {
                        if splits_at_marker(s@, b, a) {
                            lemma_marker_position(s@, b, a);
                        }
                    }
                }
                Err(ErrorKind::MalformedTemplate)
            },
            Some(m) => {
                let before = s.substring_char(0, m);
                let after = s.substring_char(m + 1, n);
                proof {
                    assert(s@ =~= before@ + seq!['%'] + after@);
                    assert(!before@.contains('%')) by {
                        assert forall|j: int| 0 <= j < before@.len() implies before@[j] != '%' by {
                            assert(before@[j] == s@[j]);
                        }
                    }
                    assert(!after@.contains('%')) by {
                        assert forall|j: int| 0 <= j < after@.len() implies after@[j] != '%' by {
                            assert(after@[j] == s@[j + m + 1]);
                        }
                    }
                }
                Ok(Template::from_str(before, after))
            },
        }
    }

    /// Reads a template of the form `[before]%[after]`, where each side is empty
    /// or one identifier.
    ///
    /// Whatever the text, a template that is read splits at its one marker. On
    /// ASCII text the result is exact: `Ok` just where the text is a well-formed
    /// template.
    pub fn parse(s: &str) -> (r: Result<Template, ErrorKind>)
        ensures
            match r {
                Ok(t) => splits_at_marker(s@, t.before@, t.after@) && (is_ascii_text(s@)
                    ==> is_template(s@, t.before@, t.after@)),
                Err(e) => e == ErrorKind::MalformedTemplate && (is_ascii_text(s@)
                    ==> !is_template_text(s@)),
            },
    {
        let t = match Template::split(s) {
            Ok(t) => t,
            Err(e) => {
                proof {
                    assert forall|b: Seq<char>, a: Seq<char>|
                        !#[trigger] is_template(s@, b, a) by {
                        if is_template(s@, b, a) {
                            assert(splits_at_marker(s@, b, a));
                        }
                    }
                }
                return Err(e);
            },
        };
        proof {
            lemma_marker_position(s@, t.before@, t.after@);
            if is_ascii_text(s@) {
                assert(is_ascii_text(t.before@)) by {
                    assert forall|i: int| 0 <= i < t.before@.len() implies (t.before@[i] as u32)
                        < 128 by {
                        assert(t.before@[i] == s@[i]);
                    }
                }
                assert(is_ascii_text(t.after@)) by {
                    assert forall|i: int| 0 <= i < t.after@.len() implies (t.after@[i] as u32)
                        < 128 by {
                        assert(t.after@[i] == s@[i + t.before@.len() + 1]);
                    }
                }
            }
        }
        let before_ok = Template::fragment_ok(t.before.as_str());
        let after_ok = Template::fragment_ok(t.after.as_str());
        if before_ok && after_ok {
            Ok(t)
        } else {
            proof {
                if is_ascii_text(s@) {
                    assert forall|b: Seq<char>, a: Seq<char>|
                        !#[trigger] is_template(s@, b, a) by {
                        if is_template(s@, b, a) {
                            lemma_split_unique(s@, b, a, t.before@, t.after@);
                        }
                    }
                }
            }
            Err(ErrorKind::MalformedTemplate)
        }
    }

    /// Reads a template written as separate tokens, as it stands in an option's
    /// value: at most one identifier, the `%` marker as a token of its own, at
    /// most one identifier.
    ///
    /// Whatever the tokens, a template that is read is what they spell. On ASCII
    /// tokens the result is exact: `Ok` just where they spell a template whose
    /// sides are identifiers.
    pub fn from_tokens(tokens: &Vec<String>) -> (r: Result<Template, ErrorKind>)
        ensures
            match r {
                Ok(t) => spells_template(token_texts(tokens@), t.before@, t.after@) && (all_ascii(
                    token_texts(tokens@),
                ) ==> is_fragment(t.before@) && is_fragment(t.after@)),
                Err(e) => e == ErrorKind::MalformedTemplate && (all_ascii(token_texts(tokens@))
                    ==> !exists|b: Seq<char>, a: Seq<char>|
                    #[trigger] spells_template(token_texts(tokens@), b, a) && is_fragment(b)
                        && is_fragment(a)),
            },
    {
        let ghost toks = token_texts(tokens@);
        let ghost m = seq!['%'];
        proof {
            reveal_strlit("");
        }
        let n = tokens.len();
        let (before, after): (&str, &str) = if n == 1 && is_marker(&tokens[0]) {
            assert(toks =~= seq![m]);
            assert(""@.len() == 0);
            assert(spells_template(toks, ""@, ""@));
            ("", "")
        } else if n == 2 && !is_marker(&tokens[0]) && !tokens[0].as_str().is_empty() && is_marker(
            &tokens[1],
        ) {
            assert(toks =~= seq![tokens@[0]@, m]);
            assert(""@.len() == 0);
            assert(spells_template(toks, tokens@[0]@, ""@));
            (tokens[0].as_str(), "")
        } else if n == 2 && is_marker(&tokens[0]) && !is_marker(&tokens[1])
            && !tokens[1].as_str().is_empty() {
            assert(toks =~= seq![m, tokens@[1]@]);
            assert(""@.len() == 0);
            assert(spells_template(toks, ""@, tokens@[1]@));
            ("", tokens[1].as_str())
        } else if n == 3 && !is_marker(&tokens[0]) && !tokens[0].as_str().is_empty() && is_marker(
            &tokens[1],
        ) && !is_marker(&tokens[2]) && !tokens[2].as_str().is_empty() {
            assert(toks =~= seq![tokens@[0]@, m, tokens@[2]@]);
            assert(spells_template(toks, tokens@[0]@, tokens@[2]@));
            (tokens[0].as_str(), tokens[2].as_str())
        } else {
            proof {
                assert forall|b: Seq<char>, a: Seq<char>| !#[trigger] spells_template(toks, b, a) by {
                    if spells_template(toks, b, a) {
                        assert(toks.len() == n);
                        if n >= 1 {
                            assert(toks[0] == tokens@[0]@);
                        }
                        if n >= 2 {
                            assert(toks[1] == tokens@[1]@);
                        }
                        if n >= 3 {
                            assert(toks[2] == tokens@[2]@);
                        }
                    }
                }
            }
            return Err(ErrorKind::MalformedTemplate);
        };
        assert(spells_template(toks, before@, after@));
        proof {
            if all_ascii(toks) {
                if before@.len() > 0 {
                    assert(before@ == toks[0]);
                    assert(is_ascii_text(toks[0]));
                }
                if after@.len() > 0 {
                    assert(after@ == toks[n - 1]);
                    assert(is_ascii_text(toks[n - 1]));
                }
            }
        }
        if Template::fragment_ok(before) && Template::fragment_ok(after) {
            Ok(Template::from_str(before, after))
        } else {
            proof {
                if all_ascii(toks) {
                    assert forall|b: Seq<char>, a: Seq<char>|
                        !(#[trigger] spells_template(toks, b, a) && is_fragment(b) && is_fragment(
                            a,
                        )) by {
                        if spells_template(toks, b, a) {
                            lemma_spelling_unique(toks, b, a, before@, after@);
                        }
                    }
                }
            }
            Err(ErrorKind::MalformedTemplate)
        }
    }

    /// Whether `s` may stand on one side of a template's marker.
    fn fragment_ok(s: &str) -> (r: bool)
        ensures
            s@.len() == 0 ==> r,
            is_ascii_text(s@) ==> r == is_fragment(s@),
    {
        if s.is_empty() {
            return true;
        }
        match parse_ident(s) {
            Some(text) => same_text(text.as_str(), s),
            None => false,
        }
    }
}

/// Whether a token is the `%` marker.
fn is_marker(token: &String) -> (r: bool)
    ensures
        r == (token@ == seq!['%']),
{
    proof {
        reveal_strlit("%");
    }
    assert("%"@ =~= seq!['%']);
    same_text(token.as_str(), "%")
}

/// Whether two strings hold the same characters.
pub(crate) fn same_text(a: &str, b: &str) -> (r: bool)
    ensures
        r == (a@ == b@),
{
    let n = a.unicode_len();
    if n != b.unicode_len() {
        return false;
    }
    let mut i: usize = 0;
    while i < n
        invariant
            n == a@.len(),
            n == b@.len(),
            i <= n,
            forall|j: int| 0 <= j < i ==> a@[j] == b@[j],
        decreases n - i,
    {
        if a.get_char(i) != b.get_char(i) {
            return false;
        }
        i += 1;
    }
    assert(a@ =~= b@);
    true
}

} // verus!
