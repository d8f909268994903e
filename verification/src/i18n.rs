//! Message catalogues: looking a key up by locale with fallbacks,
//! substituting `{name}` placeholders, and choosing the locale to speak.
use vstd::prelude::*;

use crate::strmap::{KeyedMap, StrMap};
use crate::text::{
    ascii_lower, find_char, first_index_of, has_prefix, owned, replace_all, replace_char, map_char,
    replace_str, slice_chars, str_eq, to_ascii_lowercase, trim, trim_ws, concat3,
};

verus! {

/// Message catalogues by locale; each maps message keys to text.
pub type Catalogs = KeyedMap<StrMap>;

/// The text of `s` before the first `c`, or all of it.
pub open spec fn head_before(s: Seq<char>, c: char) -> Seq<char> {
    match first_index_of(s, c) {
        Some(i) => s.take(i),
        None => s,
    }
}

fn head_before_exec(s: &str, c: char) -> (r: String)
    ensures
        r@ == head_before(s@, c),
{
    match find_char(s, c) {
        Some(i) => {
            proof {
                crate::text::lemma_first_index_in_range(s@, c);
            }
            let r = slice_chars(s, 0, i);
            assert(r@ =~= s@.take(i as int));
            r
        },
        None => owned(s),
    }
}

/// The base language of a tag: its first `-` field, lower-cased.
pub open spec fn base_language_spec(tag: Seq<char>) -> Seq<char> {
    ascii_lower(head_before(tag, '-'))
}

pub fn base_language(tag: &str) -> (r: String)
    ensures
        r@ == base_language_spec(tag@),
{
    let head = head_before_exec(tag, '-');
    to_ascii_lowercase(head.as_str())
}

/// The text `catalogs` give `key` in `locale`: the locale's own catalogue,
/// else its base language's.
pub open spec fn lookup_spec(
    catalogs: Map<Seq<char>, Map<Seq<char>, Seq<char>>>,
    locale: Seq<char>,
    key: Seq<char>,
) -> Option<Seq<char>> {
    if catalogs.contains_key(locale) && catalogs[locale].contains_key(key) {
        Some(catalogs[locale][key])
    } else {
        let base = base_language_spec(locale);
        if catalogs.contains_key(base) && catalogs[base].contains_key(key) {
            Some(catalogs[base][key])
        } else {
            None
        }
    }
}

pub fn lookup<'a>(catalogs: &'a Catalogs, locale: &str, key: &str) -> (r: Option<&'a String>)
    ensures
        match r {
            Some(v) => lookup_spec(catalogs@, locale@, key@) == Some(v@),
            None => lookup_spec(catalogs@, locale@, key@) is None,
        },
{
    if let Some(cat) = catalogs.get(locale) {
        if let Some(value) = cat.get(key) {
            return Some(value);
        }
    }
    let base = base_language(locale);
    match catalogs.get(base.as_str()) {
        Some(cat) => cat.get(key),
        None => None,
    }
}

/// What a key reads as in `locale`: its text there, else in English, else the key itself.
pub open spec fn translated(catalogs: Map<Seq<char>, Map<Seq<char>, Seq<char>>>, locale: Seq<char>, key: Seq<char>) -> Seq<char> {
    match lookup_spec(catalogs, locale, key) {
        Some(v) => v,
        None => match lookup_spec(catalogs, "en"@, key) {
            Some(v) => v,
            None => key,
        },
    }
}

/// The message `key` in `locale`.
pub fn t(catalogs: &Catalogs, locale: &str, key: &str) -> (r: String)
    ensures
        r@ == translated(catalogs@, locale@, key@),
{
    if let Some(value) = lookup(catalogs, locale, key) {
        return value.clone();
    }
    if let Some(value) = lookup(catalogs, "en", key) {
        return value.clone();
    }
    owned(key)
}

/// `text` with each `{name}` placeholder replaced by its value, in argument order.
pub open spec fn fill_placeholders(text: Seq<char>, args: Seq<(String, String)>) -> Seq<char>
    decreases args.len(),
{
    if args.len() == 0 {
        text
    } else {
        replace_all(
            fill_placeholders(text, args.drop_last()),
            "{"@ + args.last().0@ + "}"@,
            args.last().1@,
        )
    }
}

/// Replacing the whole of a text that is exactly the token gives the replacement.
pub proof fn lemma_replace_lone_token(pat: Seq<char>, rep: Seq<char>)
    requires
        pat.len() > 0,
    ensures
        replace_all(pat, pat, rep) == rep,
{
    assert(pat.subrange(0, pat.len() as int) =~= pat);
    assert(has_prefix(pat, pat));
    let rest = pat.skip(pat.len() as int);
    assert(rest =~= Seq::<char>::empty());
    assert(replace_all(rest, pat, rep) == rest);
    assert(replace_all(pat, pat, rep) == rep + replace_all(rest, pat, rep));
    assert(rep + rest =~= rep);
}

/// Rendering with arguments is rendering with all but the last, then
/// replacing every `{name}` token of the last argument by its value.
pub proof fn lemma_fill_last_argument(text: Seq<char>, args: Seq<(String, String)>)
    requires
        args.len() > 0,
    ensures
        fill_placeholders(text, args) == replace_all(
            fill_placeholders(text, args.drop_last()),
            "{"@ + args.last().0@ + "}"@,
            args.last().1@,
        ),
{
}

/// Every argument is filled in: where the earlier arguments leave exactly
/// the last argument's token, the message is that argument's value.
pub proof fn lemma_last_token_filled(text: Seq<char>, args: Seq<(String, String)>)
    requires
        args.len() > 0,
        fill_placeholders(text, args.drop_last()) == "{"@ + args.last().0@ + "}"@,
    ensures
        fill_placeholders(text, args) == args.last().1@,
{
    reveal_strlit("{");
    lemma_replace_lone_token("{"@ + args.last().0@ + "}"@, args.last().1@);
}

/// The message `key` in `locale` with its `{name}` placeholders filled in.
pub fn tf(catalogs: &Catalogs, locale: &str, key: &str, args: &Vec<(String, String)>) -> (r: String)
    ensures
        r@ == fill_placeholders(translated(catalogs@, locale@, key@), args@),
{
    let mut rendered = t(catalogs, locale, key);
    let ghost text = rendered@;
    let mut i: usize = 0;
    while i < args.len()
        invariant
            i <= args@.len(),
            rendered@ == fill_placeholders(text, args@.take(i as int)),
        decreases args@.len() - i,
    {
        let ghost next = args@.take(i + 1);
        assert(next.drop_last() =~= args@.take(i as int));
        let (name, value) = &args[i];
        let token = concat3("{", name.as_str(), "}");
        proof {
            reveal_strlit("{");
        }
        rendered = replace_str(rendered.as_str(), token.as_str(), value.as_str());
        i = i + 1;
    }
    assert(args@.take(args@.len() as int) =~= args@);
    rendered
}

/// The first of the locale variables (`LC_ALL`, `LC_MESSAGES`, `LANG`, in
/// that order) set to something other than blanks, trimmed.
pub open spec fn env_locale_spec(values: Seq<Option<String>>) -> Option<Seq<char>>
    decreases values.len(),
{
    if values.len() == 0 {
        None
    } else {
        match values[0] {
            Some(v) => if trim_ws(v@).len() > 0 {
                Some(trim_ws(v@))
            } else {
                env_locale_spec(values.drop_first())
            },
            None => env_locale_spec(values.drop_first()),
        }
    }
}

pub fn detect_env_locale(values: &Vec<Option<String>>) -> (r: Option<String>)
    ensures
        match r {
            Some(s) => env_locale_spec(values@) == Some(s@),
            None => env_locale_spec(values@) is None,
        },
{
    let mut i: usize = 0;
    assert(values@.skip(0) =~= values@);
    while i < values.len()
        invariant
            i <= values@.len(),
            env_locale_spec(values@) == env_locale_spec(values@.skip(i as int)),
        decreases values@.len() - i,
    {
        assert(values@.skip(i as int).drop_first() =~= values@.skip(i + 1));
        assert(values@.skip(i as int)[0] == values@[i as int]);
        if let Some(v) = &values[i] {
            let trimmed = trim(v.as_str());
            if trimmed.unicode_len() > 0 {
                return Some(trimmed);
            }
        }
        i = i + 1;
    }
    None
}

/// What `unic_langid` makes of a locale tag: its canonical text, or `None`
/// when the tag does not parse.
pub uninterp spec fn langid_canonical(text: Seq<char>) -> Option<Seq<char>>;

/// `LanguageIdentifier::from_str`, then its `Display` text.
#[verifier::external_body]
fn canonical_language_identifier(text: &str) -> (r: Option<String>)
    ensures
        match r {
            Some(s) => langid_canonical(text@) == Some(s@),
            None => langid_canonical(text@) is None,
        },
{
    text.parse::<unic_langid::LanguageIdentifier>().ok().map(|lid| lid.to_string())
}

/// A raw locale as handed to the parser: trimmed, the encoding (`.…`) and
/// modifier (`@…`) cut off, `_` written as `-`; `None` when blank.
pub open spec fn locale_text(raw: Seq<char>) -> Option<Seq<char>> {
    let t = trim_ws(raw);
    if t.len() == 0 {
        None
    } else {
        Some(map_char(head_before(head_before(t, '.'), '@'), '_', '-'))
    }
}

pub fn locale_parse_input(raw: &str) -> (r: Option<String>)
    ensures
        match r {
            Some(s) => locale_text(raw@) == Some(s@),
            None => locale_text(raw@) is None,
        },
{
    let t = trim(raw);
    if t.unicode_len() == 0 {
        return None;
    }
    let a = head_before_exec(t.as_str(), '.');
    let b = head_before_exec(a.as_str(), '@');
    Some(replace_char(b.as_str(), '_', '-'))
}

/// A raw locale in canonical form, when it parses.
pub open spec fn normalized_locale(raw: Seq<char>) -> Option<Seq<char>> {
    match locale_text(raw) {
        Some(t) => langid_canonical(t),
        None => None,
    }
}

pub fn normalize_locale(raw: &str) -> (r: Option<String>)
    ensures
        match r {
            Some(s) => normalized_locale(raw@) == Some(s@),
            None => normalized_locale(raw@) is None,
        },
{
    match locale_parse_input(raw) {
        Some(t) => canonical_language_identifier(t.as_str()),
        None => None,
    }
}

/// A normalized locale when it is supported, else its base language when that is.
pub open spec fn supported_match(norm: Seq<char>, supported: Seq<Seq<char>>) -> Option<Seq<char>> {
    if supported.contains(norm) {
        Some(norm)
    } else if supported.contains(base_language_spec(norm)) {
        Some(base_language_spec(norm))
    } else {
        None
    }
}

/// The supported locale a normalized locale resolves to.
pub fn resolve_normalized(norm: Option<String>, supported: &Vec<String>) -> (r: Option<String>)
    ensures
        match norm {
            Some(n) => match r {
                Some(s) => supported_match(n@, supported.deep_view()) == Some(s@),
                None => supported_match(n@, supported.deep_view()) is None,
            },
            None => r is None,
        },
{
    let norm = match norm {
        Some(n) => n,
        None => return None,
    };
    if crate::ordered::contains_str(supported, norm.as_str()) {
        return Some(norm);
    }
    let base = base_language(norm.as_str());
    if crate::ordered::contains_str(supported, base.as_str()) {
        return Some(base);
    }
    None
}

/// The supported locale `candidate` resolves to.
pub open spec fn resolved_locale(candidate: Seq<char>, supported: Seq<Seq<char>>) -> Option<Seq<char>> {
    match normalized_locale(candidate) {
        Some(n) => supported_match(n, supported),
        None => None,
    }
}

pub fn resolve_locale(candidate: &str, supported: &Vec<String>) -> (r: Option<String>)
    ensures
        match r {
            Some(s) => resolved_locale(candidate@, supported.deep_view()) == Some(s@),
            None => resolved_locale(candidate@, supported.deep_view()) is None,
        },
{
    resolve_normalized(normalize_locale(candidate), supported)
}

/// The locale spoken: the first of the command-line, environment and system
/// locales that resolves to a supported one, else English.
pub open spec fn selected_locale(
    cli: Option<Seq<char>>,
    env: Option<Seq<char>>,
    sys: Option<Seq<char>>,
    supported: Seq<Seq<char>>,
) -> Seq<char> {
    let from_cli = match cli {
        Some(c) => resolved_locale(c, supported),
        None => None,
    };
    let from_env = match env {
        Some(e) => resolved_locale(e, supported),
        None => None,
    };
    let from_sys = match sys {
        Some(s) => resolved_locale(s, supported),
        None => None,
    };
    if from_cli is Some {
        from_cli->0
    } else if from_env is Some {
        from_env->0
    } else if from_sys is Some {
        from_sys->0
    } else {
        "en"@
    }
}

/// An explicit command-line locale that resolves to a supported locale is
/// the one spoken, whatever the environment and the system say.
pub proof fn lemma_cli_locale_wins(
    cli: Seq<char>,
    env: Option<Seq<char>>,
    sys: Option<Seq<char>>,
    supported: Seq<Seq<char>>,
)
    requires
        resolved_locale(cli, supported) is Some,
    ensures
        selected_locale(Some(cli), env, sys, supported) == resolved_locale(cli, supported)->0,
{
}

/// Without a usable command-line locale, an environment locale that
/// resolves is spoken, whatever the system says.
pub proof fn lemma_env_locale_over_system(
    cli: Option<Seq<char>>,
    env: Seq<char>,
    sys: Option<Seq<char>>,
    supported: Seq<Seq<char>>,
)
    requires
        cli matches Some(c) ==> resolved_locale(c, supported) is None,
        resolved_locale(env, supported) is Some,
    ensures
        selected_locale(cli, Some(env), sys, supported) == resolved_locale(env, supported)->0,
{
}

/// The locale spoken is one of those that resolved, or English when none did.
pub proof fn lemma_selected_locale_resolved(
    cli: Option<Seq<char>>,
    env: Option<Seq<char>>,
    sys: Option<Seq<char>>,
    supported: Seq<Seq<char>>,
)
    ensures
        ({
            let chosen = selected_locale(cli, env, sys, supported);
            ||| cli matches Some(c) && resolved_locale(c, supported) == Some(chosen)
            ||| env matches Some(e) && resolved_locale(e, supported) == Some(chosen)
            ||| sys matches Some(x) && resolved_locale(x, supported) == Some(chosen)
            ||| chosen == "en"@
        }),
{
}

pub fn select_locale_from(
    cli_locale: Option<&str>,
    env_locale: Option<&str>,
    sys_locale: Option<&str>,
    supported: &Vec<String>,
) -> (r: String)
    ensures
        r@ == selected_locale(
            cli_locale.deep_view(),
            env_locale.deep_view(),
            sys_locale.deep_view(),
            supported.deep_view(),
        ),
        match cli_locale {
            Some(c) => resolved_locale(c@, supported.deep_view()) is Some ==> r@ == resolved_locale(
                c@,
                supported.deep_view(),
            )->0,
            None => true,
        },
{
    proof {
        if let Some(c) = cli_locale {
            if resolved_locale(c@, supported.deep_view()) is Some {
                lemma_cli_locale_wins(c@, env_locale.deep_view(), sys_locale.deep_view(), supported.deep_view());
            }
        }
    }
    if let Some(cli) = cli_locale {
        if let Some(found) = resolve_locale(cli, supported) {
            return found;
        }
    }
    if let Some(env) = env_locale {
        if let Some(found) = resolve_locale(env, supported) {
            return found;
        }
    }
    if let Some(sys) = sys_locale {
        if let Some(found) = resolve_locale(sys, supported) {
            return found;
        }
    }
    "en".to_string()
}

} // verus!
