//! Keys and series names: every key is stored in the series that bears its
//! name, the absent key in a reserved series, and key expressions with
//! wildcards become one anchored pattern of the database.

use crate::text::{chars_of, push_text, same_text};
use std::str::FromStr;
use vstd::prelude::*;

verus! {

/// Name of the series that holds the entry stored under no key.
pub const NONE_KEY: &'static str = "@@none_key@@";

/// Whether a text is a well-formed key expression, as
/// `zenoh::key_expr::OwnedKeyExpr::from_str` decides it.
pub uninterp spec fn valid_key_text(text: Seq<char>) -> bool;

/// Calls `zenoh::key_expr::OwnedKeyExpr::from_str` and reports whether it
/// accepted the text. The rules (no empty chunk, wildcards only as whole
/// chunks, canonical form, ...) are those of that function and are not
/// restated here.
#[verifier::external_body]
fn is_key_expr(text: &str) -> (ok: bool)
    ensures
        ok == valid_key_text(text@),
{
    zenoh::key_expr::OwnedKeyExpr::from_str(text).is_ok()
}

/// A series name that is not a key.
pub struct InvalidKey {
    pub name: String,
}

/// A well-formed key expression.
pub struct KeyExpr {
    text: String,
}

impl View for KeyExpr {
    type V = Seq<char>;

    closed spec fn view(&self) -> Seq<char> {
        self.text@
    }
}

impl KeyExpr {
    #[verifier::type_invariant]
    spec fn well_formed(self) -> bool {
        valid_key_text(self.text@)
    }

    /// Accepts `text` when it is a well-formed key expression.
    pub fn new(text: &str) -> (r: Result<KeyExpr, InvalidKey>)
        ensures
            match r {
                Ok(key) => valid_key_text(text@) && key@ == text@,
                Err(e) => !valid_key_text(text@) && e.name@ == text@,
            },
    {
        if is_key_expr(text) {
            Ok(KeyExpr { text: text.to_owned() })
        } else {
            Err(InvalidKey { name: text.to_owned() })
        }
    }

    /// A copy of the key expression.
    pub fn duplicate(&self) -> (copy: KeyExpr)
        ensures
            copy@ == self@,
    {
        proof {
            use_type_invariant(self);
        }
        KeyExpr { text: self.text.clone() }
    }

    /// The text of the key expression.
    pub fn as_str(&self) -> (text: &str)
        ensures
            text@ == self@,
            valid_key_text(self@),
    {
        proof {
            use_type_invariant(self);
        }
        self.text.as_str()
    }
}

/// The series in which a key is stored.
pub open spec fn series_name_of(key: Option<Seq<char>>) -> Seq<char> {
    match key {
        Some(text) => text,
        None => NONE_KEY@,
    }
}

/// The key that a series name stands for; the outer `None` when it stands
/// for none.
pub open spec fn key_of_series_name(name: Seq<char>) -> Option<Option<Seq<char>>> {
    if name == NONE_KEY@ {
        Some(None)
    } else if valid_key_text(name) {
        Some(Some(name))
    } else {
        None
    }
}

/// The view of an optional key.
pub open spec fn key_view(key: Option<KeyExpr>) -> Option<Seq<char>> {
    match key {
        Some(k) => Some(k@),
        None => None,
    }
}

/// The name of the series that holds `key`.
pub fn to_series_name(key: &Option<KeyExpr>) -> (name: String)
    ensures
        name@ == series_name_of(key_view(*key)),
{
    match key {
        Some(k) => k.as_str().to_owned(),
        None => NONE_KEY.to_owned(),
    }
}

/// The key that is stored in the series `serie_name`.
pub fn keyexpr_from_serie(serie_name: &str) -> (r: Result<Option<KeyExpr>, InvalidKey>)
    ensures
        match r {
            Ok(key) => key_of_series_name(serie_name@) == Some(key_view(key)),
            Err(e) => key_of_series_name(serie_name@) is None && e.name@ == serie_name@,
        },
{
    if same_text(serie_name, NONE_KEY) {
        Ok(None)
    } else {
        match KeyExpr::new(serie_name) {
            Ok(key) => Ok(Some(key)),
            Err(e) => Err(e),
        }
    }
}

/// A key goes to its series and comes back from it unchanged, unless its
/// text is the reserved name; the absent key goes to the reserved series and
/// comes back absent.
pub proof fn lemma_series_name_round_trip(key: Option<Seq<char>>)
    requires
        key matches Some(text) ==> valid_key_text(text) && text != NONE_KEY@,
    ensures
        key_of_series_name(series_name_of(key)) == Some(key),
        series_name_of(None) == NONE_KEY@,
        key_of_series_name(NONE_KEY@) == Some(None::<Seq<char>>),
{
}

/// What one key expression becomes inside the pattern: `**` matches
/// anything, a single `*` anything but a separator, a separator is escaped
/// and every other character stands for itself.
pub open spec fn pattern_body(key: Seq<char>) -> Seq<char>
    decreases key.len(),
{
    if key.len() == 0 {
        Seq::empty()
    } else if key[0] == '*' && key.len() >= 2 && key[1] == '*' {
        seq!['.', '*'] + pattern_body(key.skip(2))
    } else if key[0] == '*' {
        seq!['[', '^', '\\', '/', ']', '*'] + pattern_body(key.skip(1))
    } else if key[0] == '/' {
        seq!['\\', '/'] + pattern_body(key.skip(1))
    } else {
        seq![key[0]] + pattern_body(key.skip(1))
    }
}

/// The bodies of the first `n` key expressions, separated by `|`.
pub open spec fn alternatives(keys: Seq<Seq<char>>, n: nat) -> Seq<char>
    decreases n,
{
    if n == 0 {
        Seq::empty()
    } else if n == 1 {
        pattern_body(keys[0])
    } else {
        alternatives(keys, (n - 1) as nat) + seq!['|'] + pattern_body(keys[n - 1])
    }
}

/// What stands between the anchors: the one body where there is one
/// expression, and the alternatives in a group where there are several, so
/// that the anchors hold for each of them.
pub open spec fn union_body(keys: Seq<Seq<char>>) -> Seq<char> {
    if keys.len() >= 2 {
        seq!['('] + alternatives(keys, keys.len()) + seq![')']
    } else {
        alternatives(keys, keys.len())
    }
}

/// The pattern that matches the union of the key expressions: anchored at
/// both ends and written between slashes. A series name matches it only
/// where it matches one of the alternatives from its first character to its
/// last.
pub open spec fn influx_regex(keys: Seq<Seq<char>>) -> Seq<char> {
    seq!['/', '^'] + union_body(keys) + seq!['$', '/']
}

/// The texts of a list of key expressions.
pub open spec fn key_texts(keys: Seq<KeyExpr>) -> Seq<Seq<char>> {
    Seq::new(keys.len(), |i: int| keys[i]@)
}

/// Every pattern begins with `/^` and ends with `$/`, and several
/// alternatives stand in one group between the two anchors: no alternative
/// is left with one anchor only.
pub proof fn lemma_pattern_anchored(keys: Seq<Seq<char>>)
    ensures
        influx_regex(keys).len() >= 4,
        influx_regex(keys).subrange(0, 2) == seq!['/', '^'],
        influx_regex(keys).subrange(influx_regex(keys).len() - 2, influx_regex(keys).len() as int)
            == seq!['$', '/'],
        keys.len() >= 2 ==> influx_regex(keys).len() >= 6 && influx_regex(keys)[2] == '('
            && influx_regex(keys)[influx_regex(keys).len() - 3] == ')'
            && influx_regex(keys).subrange(3, influx_regex(keys).len() - 3) == alternatives(
            keys,
            keys.len(),
        ),
        keys.len() == 1 ==> influx_regex(keys).subrange(2, influx_regex(keys).len() - 2)
            == pattern_body(keys[0]),
{
    let r = influx_regex(keys);
    assert(r.subrange(0, 2) =~= seq!['/', '^']);
    assert(r.subrange(r.len() - 2, r.len() as int) =~= seq!['$', '/']);
    if keys.len() >= 2 {
        assert(r.subrange(3, r.len() - 3) =~= alternatives(keys, keys.len()));
    }
    if keys.len() == 1 {
        assert(r.subrange(2, r.len() - 2) =~= pattern_body(keys[0]));
    }
}

fn push_pattern_body(out: &mut String, key: &str)
    ensures
        final(out)@ == old(out)@ + pattern_body(key@),
{
    let chars = chars_of(key);
    let n = chars.len();
    let mut i: usize = 0;
    let ghost done: Seq<char> = Seq::empty();
    proof {
        assert(chars@.skip(0) =~= chars@);
        assert(old(out)@ + done =~= old(out)@);
    }
    while i < n
        invariant
            n == chars.len(),
            chars@ == key@,
            i <= n,
            out@ == old(out)@ + done,
            done + pattern_body(chars@.skip(i as int)) == pattern_body(chars@),
        decreases n - i,
    {
        let ghost rest = chars@.skip(i as int);
        let c = chars[i];
        proof {
            assert(rest[0] == c);
            assert(rest.skip(1) =~= chars@.skip(i + 1));
            if i + 1 < n {
                assert(rest[1] == chars@[i + 1]);
                assert(rest.skip(2) =~= chars@.skip(i + 2));
            }
        }
        if c == '*' && i + 1 < n && chars[i + 1] == '*' {
            push_text(out, ".*");
            proof {
                reveal_strlit(".*");
                assert(".*"@ =~= seq!['.', '*']);
                assert((done + seq!['.', '*']) + pattern_body(chars@.skip(i + 2)) =~= done
                    + pattern_body(rest));
                assert(old(out)@ + done + ".*"@ =~= old(out)@ + (done + seq!['.', '*']));
                done = done + seq!['.', '*'];
            }
            i += 2;
        } else if c == '*' {
            push_text(out, "[^\\/]*");
            proof {
                reveal_strlit("[^\\/]*");
                let piece = seq!['[', '^', '\\', '/', ']', '*'];
                assert("[^\\/]*"@ =~= piece);
                assert((done + piece) + pattern_body(chars@.skip(i + 1)) =~= done + pattern_body(
                    rest,
                ));
                assert(old(out)@ + done + "[^\\/]*"@ =~= old(out)@ + (done + piece));
                done = done + piece;
            }
            i += 1;
        } else if c == '/' {
            push_text(out, "\\/");
            proof {
                reveal_strlit("\\/");
                let piece = seq!['\\', '/'];
                assert("\\/"@ =~= piece);
                assert((done + piece) + pattern_body(chars@.skip(i + 1)) =~= done + pattern_body(
                    rest,
                ));
                assert(old(out)@ + done + "\\/"@ =~= old(out)@ + (done + piece));
                done = done + piece;
            }
            i += 1;
        } else {
            out.push(c);
            proof {
                let piece = seq![c];
                assert((done + piece) + pattern_body(chars@.skip(i + 1)) =~= done + pattern_body(
                    rest,
                ));
                assert((old(out)@ + done).push(c) =~= old(out)@ + (done + piece));
                done = done + piece;
            }
            i += 1;
        }
    }
    proof {
        assert(chars@.skip(n as int) =~= Seq::<char>::empty());
        assert(done + Seq::<char>::empty() =~= done);
    }
}

/// The pattern of the database that matches the series of every key that one
/// of `path_exprs` matches.
pub fn key_exprs_to_influx_regex(path_exprs: &[KeyExpr]) -> (pattern: String)
    ensures
        pattern@ == influx_regex(key_texts(path_exprs@)),
{
    let ghost keys = key_texts(path_exprs@);
    let grouped = path_exprs.len() >= 2;
    let ghost opening: Seq<char> = if grouped {
        seq!['/', '^', '(']
    } else {
        seq!['/', '^']
    };
    let mut result = String::new();
    push_text(&mut result, "/^");
    if grouped {
        result.push('(');
    }
    proof {
        reveal_strlit("/^");
        assert(result@ =~= opening + alternatives(keys, 0));
    }
    let mut i: usize = 0;
    while i < path_exprs.len()
        invariant
            i <= path_exprs.len(),
            keys == key_texts(path_exprs@),
            result@ == opening + alternatives(keys, i as nat),
        decreases path_exprs.len() - i,
    {
        if i != 0 {
            result.push('|');
        }
        push_pattern_body(&mut result, path_exprs[i].as_str());
        proof {
            assert(keys[i as int] == path_exprs@[i as int]@);
            if i == 0 {
                assert(result@ =~= opening + alternatives(keys, 1));
            } else {
                assert(result@ =~= opening + alternatives(keys, (i + 1) as nat));
            }
        }
        i += 1;
    }
    if grouped {
        result.push(')');
    }
    push_text(&mut result, "$/");
    proof {
        reveal_strlit("$/");
        assert(result@ =~= influx_regex(keys));
    }
    result
}

/// The pattern that matches what the one expression `text` matches.
pub fn text_to_influx_regex(text: &str) -> (pattern: String)
    ensures
        pattern@ == influx_regex(seq![text@]),
{
    let mut result = String::new();
    push_text(&mut result, "/^");
    push_pattern_body(&mut result, text);
    push_text(&mut result, "$/");
    proof {
        reveal_strlit("/^");
        reveal_strlit("$/");
        let keys = seq![text@];
        assert(alternatives(keys, 1) == pattern_body(keys[0]));
        assert(result@ =~= influx_regex(keys));
    }
    result
}

/// The pattern that matches every series: that of the key expression `**`.
pub fn influx_regex_all() -> (pattern: String)
    ensures
        pattern@ == influx_regex(seq![seq!['*', '*']]),
{
    let pattern = text_to_influx_regex("**");
    proof {
        reveal_strlit("**");
        assert("**"@ =~= seq!['*', '*']);
    }
    pattern
}

} // verus!
