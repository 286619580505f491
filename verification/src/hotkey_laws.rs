//! Laws of the hotkey grammar, proved against the spec model: every parse
//! result is a valid hotkey, rendering a parse result and parsing it again
//! gives an equal hotkey, and duplicate modifiers are idempotent.

use vstd::prelude::*;

use crate::hotkey::apply_modifier;
use crate::hotkey::empty_hotkey;
use crate::hotkey::has_upper_token;
use crate::hotkey::hotkey_eq;
use crate::hotkey::is_alpha_token;
use crate::hotkey::is_alt_token;
use crate::hotkey::is_ctrl_token;
use crate::hotkey::is_modifier_token;
use crate::hotkey::is_shift_token;
use crate::hotkey::key_render;
use crate::hotkey::key_wf;
use crate::hotkey::parse_tokens;
use crate::hotkey::spec_parse;
use crate::hotkey::spec_render;
use crate::hotkey::token_clean;
use crate::hotkey::tokens_of;
use crate::hotkey::valid_hotkey;
use crate::hotkey::with_alpha_key;
use crate::hotkey::with_special_key;
use crate::hotkey::Hotkey;
use crate::key::key_eq;
use crate::parse_hotkey_error::ParseHotkeyErrorKind;
use crate::key::Key;
use crate::special_key::lemma_special_name_props;
use crate::special_key::special_of_upper;
use crate::text::is_alnum_char;
use crate::text::is_space;
use crate::text::lemma_split_parts_no_plus;
use crate::text::lemma_split_no_plus;
use crate::text::lemma_split_prefix;
use crate::text::lemma_trim_clean;
use crate::text::lemma_trim_props;
use crate::text::split_plus;
use crate::text::trim;
use crate::text::upper_char;
use crate::text::upper_seq;

verus! {

/// Every token that tokenization yields is clean: no delimiter inside, no
/// whitespace at the ends.
pub proof fn lemma_tokens_clean(s: Seq<char>)
    ensures
        forall|p: int| 0 <= p < tokens_of(s).len() ==> #[trigger] token_clean(tokens_of(s)[p]),
{
    lemma_split_parts_no_plus(s);
    assert forall|p: int| 0 <= p < tokens_of(s).len() implies #[trigger] token_clean(
        tokens_of(s)[p],
    ) by {
        let part = split_plus(s)[p];
        lemma_trim_props(part, '+');
        assert(tokens_of(s)[p] == trim(part));
    }
}

/// What a successful pass guarantees: the result holds a well-formed key,
/// keeps an already-set key, only ever raises modifier flags, and — as soon
/// as the pass saw enough parts — has at least one modifier flag set.
pub proof fn lemma_parse_tokens_ok(parts: Seq<Seq<char>>, h: Hotkey)
    requires
        parse_tokens(parts, h) is Ok,
        forall|p: int| 0 <= p < parts.len() ==> #[trigger] token_clean(parts[p]),
        match h.key {
            Some(k) => key_wf(k),
            None => true,
        },
    ensures
        ({
            let r = parse_tokens(parts, h)->Ok_0;
            &&& r.key is Some
            &&& key_wf(r.key->Some_0)
            &&& h.key is Some ==> r.key == h.key
            &&& h.ctrl ==> r.ctrl
            &&& h.shift ==> r.shift
            &&& h.alt ==> r.alt
            &&& h.win ==> r.win
            &&& h.key is Some && parts.len() >= 1 ==> (r.ctrl || r.shift || r.alt || r.win)
            &&& h.key is None && parts.len() >= 2 ==> (r.ctrl || r.shift || r.alt || r.win)
        }),
    decreases parts.len(),
{
    if parts.len() == 0 {
    } else {
        let t = parts[0];
        assert(token_clean(parts[0]));
        assert forall|p: int| 0 <= p < parts.skip(1).len() implies #[trigger] token_clean(
            parts.skip(1)[p],
        ) by {
            assert(parts.skip(1)[p] == parts[p + 1]);
        }
        if is_modifier_token(t) {
            let h2 = apply_modifier(h, t);
            assert(h2.ctrl || h2.shift || h2.alt || h2.win);
            lemma_parse_tokens_ok(parts.skip(1), h2);
        } else if h.key is Some {
        } else if is_alpha_token(t) {
            lemma_parse_tokens_ok(parts.skip(1), with_alpha_key(h, t));
        } else if special_of_upper(upper_seq(t)) is Some {
            lemma_parse_tokens_ok(parts.skip(1), with_special_key(h, t));
        }
    }
}

/// Every hotkey the parser accepts is valid: at least one modifier and
/// exactly one well-formed key.
pub proof fn lemma_parse_valid(s: Seq<char>)
    requires
        spec_parse(s) is Ok,
    ensures
        valid_hotkey(spec_parse(s)->Ok_0),
{
    lemma_tokens_clean(s);
    lemma_parse_tokens_ok(tokens_of(s), empty_hotkey());
}

/// Rendering a valid hotkey and parsing the result succeeds and gives back
/// an equal hotkey (character keys compare up to ASCII case).
#[verifier::rlimit(100)]
pub proof fn lemma_render_parse(h: Hotkey)
    requires
        valid_hotkey(h),
    ensures
        spec_parse(spec_render(h)) is Ok,
        hotkey_eq(spec_parse(spec_render(h))->Ok_0, h),
{
    reveal_strlit("CTRL");
    reveal_strlit("SHIFT");
    reveal_strlit("ALT");
    reveal_strlit("WIN");
    reveal_strlit("Ctrl+");
    reveal_strlit("Shift+");
    reveal_strlit("Alt+");
    reveal_strlit("Win+");
    reveal_strlit("Ctrl");
    reveal_strlit("Shift");
    reveal_strlit("Alt");
    reveal_strlit("Win");
    let kr = key_render(h.key);
    // Facts about the rendered key part: it is clean, it is not a modifier
    // name, and parsing it as a part yields the key back.
    match h.key {
        Some(Key::AlphaNumeric(c)) => {
            assert(is_alnum_char(c));
            assert(kr =~= seq![upper_char(c)]);
            assert(is_alnum_char(upper_char(c)));
            assert(is_alpha_token(kr));
            assert(upper_seq(kr).len() == 1);
            assert(!is_modifier_token(kr));
            assert(forall|i: int| 0 <= i < kr.len() ==> kr[i] != '+');
            assert(!is_space(kr[0]));
        },
        Some(Key::Special(sk)) => {
            lemma_special_name_props(sk);
            assert(kr == sk.name_seq());
            assert(!is_modifier_token(kr));
            assert(!is_alpha_token(kr));
            assert(special_of_upper(upper_seq(kr)) == Some(sk));
            assert(forall|i: int| 0 <= i < kr.len() ==> kr[i] != '+');
        },
        None => {
            assert(false);
        },
    }
    assert(kr.len() >= 1);
    lemma_trim_clean(kr);
    assert(trim(kr) == kr);
    // The split of the rendered string, peeled modifier by modifier.
    let p_key = seq![kr];
    lemma_split_no_plus(kr);
    assert(split_plus(kr) == p_key);
    let r_win = if h.win {
        "Win+"@ + kr
    } else {
        kr
    };
    let p_win = if h.win {
        seq!["Win"@] + p_key
    } else {
        p_key
    };
    if h.win {
        assert("Win+"@ =~= "Win"@ + seq!['+']);
        assert(r_win =~= "Win"@ + seq!['+'] + kr);
        lemma_split_prefix("Win"@, kr);
        assert(split_plus(r_win) =~= p_win);
    }
    assert(split_plus(r_win) == p_win);
    let r_alt = if h.alt {
        "Alt+"@ + r_win
    } else {
        r_win
    };
    let p_alt = if h.alt {
        seq!["Alt"@] + p_win
    } else {
        p_win
    };
    if h.alt {
        assert("Alt+"@ =~= "Alt"@ + seq!['+']);
        assert(r_alt =~= "Alt"@ + seq!['+'] + r_win);
        lemma_split_prefix("Alt"@, r_win);
        assert(split_plus(r_alt) =~= p_alt);
    }
    assert(split_plus(r_alt) == p_alt);
    let r_shift = if h.shift {
        "Shift+"@ + r_alt
    } else {
        r_alt
    };
    let p_shift = if h.shift {
        seq!["Shift"@] + p_alt
    } else {
        p_alt
    };
    if h.shift {
        assert("Shift+"@ =~= "Shift"@ + seq!['+']);
        assert(r_shift =~= "Shift"@ + seq!['+'] + r_alt);
        lemma_split_prefix("Shift"@, r_alt);
        assert(split_plus(r_shift) =~= p_shift);
    }
    assert(split_plus(r_shift) == p_shift);
    let r_ctrl = if h.ctrl {
        "Ctrl+"@ + r_shift
    } else {
        r_shift
    };
    let p_ctrl = if h.ctrl {
        seq!["Ctrl"@] + p_shift
    } else {
        p_shift
    };
    if h.ctrl {
        assert("Ctrl+"@ =~= "Ctrl"@ + seq!['+']);
        assert(r_ctrl =~= "Ctrl"@ + seq!['+'] + r_shift);
        lemma_split_prefix("Ctrl"@, r_shift);
        assert(split_plus(r_ctrl) =~= p_ctrl);
    }
    assert(split_plus(r_ctrl) == p_ctrl);
    assert(spec_render(h) =~= r_ctrl);
    // Every part trims to itself, so the token list is the part list.
    lemma_trim_clean("Ctrl"@);
    lemma_trim_clean("Shift"@);
    lemma_trim_clean("Alt"@);
    lemma_trim_clean("Win"@);
    let toks = tokens_of(spec_render(h));
    assert(toks =~= p_ctrl);
    // Modifier-name facts for the pass.
    assert(upper_seq("Ctrl"@) =~= "CTRL"@);
    assert(upper_seq("Shift"@) =~= "SHIFT"@);
    assert(upper_seq("Alt"@) =~= "ALT"@);
    assert(upper_seq("Win"@) =~= "WIN"@);
    assert("SHIFT"@ != "CTRL"@);
    assert("ALT"@ != "CTRL"@ && "ALT"@ != "SHIFT"@);
    assert("WIN"@[0] != "ALT"@[0]);
    assert("WIN"@ != "CTRL"@ && "WIN"@ != "SHIFT"@ && "WIN"@ != "ALT"@);
    // The pass itself, one modifier at a time.
    let h0 = empty_hotkey();
    let h1 = if h.ctrl {
        apply_modifier(h0, "Ctrl"@)
    } else {
        h0
    };
    if h.ctrl {
        assert(p_ctrl[0] == "Ctrl"@);
        assert(p_ctrl.skip(1) =~= p_shift);
        assert(parse_tokens(p_ctrl, h0) == parse_tokens(p_shift, h1));
    }
    assert(h1 == (Hotkey { ctrl: h.ctrl, ..h0 }));
    assert(parse_tokens(p_ctrl, h0) == parse_tokens(p_shift, h1));
    let h2 = if h.shift {
        apply_modifier(h1, "Shift"@)
    } else {
        h1
    };
    if h.shift {
        assert(p_shift[0] == "Shift"@);
        assert(p_shift.skip(1) =~= p_alt);
        assert(parse_tokens(p_shift, h1) == parse_tokens(p_alt, h2));
    }
    assert(h2 == (Hotkey { ctrl: h.ctrl, shift: h.shift, ..h0 }));
    assert(parse_tokens(p_shift, h1) == parse_tokens(p_alt, h2));
    let h3 = if h.alt {
        apply_modifier(h2, "Alt"@)
    } else {
        h2
    };
    if h.alt {
        assert(p_alt[0] == "Alt"@);
        assert(p_alt.skip(1) =~= p_win);
        assert(parse_tokens(p_alt, h2) == parse_tokens(p_win, h3));
    }
    assert(h3 == (Hotkey { ctrl: h.ctrl, shift: h.shift, alt: h.alt, ..h0 }));
    assert(parse_tokens(p_alt, h2) == parse_tokens(p_win, h3));
    let h4 = if h.win {
        apply_modifier(h3, "Win"@)
    } else {
        h3
    };
    if h.win {
        assert(p_win[0] == "Win"@);
        assert(p_win.skip(1) =~= p_key);
        assert(parse_tokens(p_win, h3) == parse_tokens(p_key, h4));
    }
    assert(h4 == (Hotkey { ctrl: h.ctrl, shift: h.shift, alt: h.alt, win: h.win, key: None }));
    assert(parse_tokens(p_win, h3) == parse_tokens(p_key, h4));
    // The key part ends the pass.
    assert(p_key[0] == kr);
    assert(p_key.skip(1) =~= Seq::<Seq<char>>::empty());
    let hfin = match h.key {
        Some(Key::AlphaNumeric(_)) => with_alpha_key(h4, kr),
        _ => with_special_key(h4, kr),
    };
    assert(parse_tokens(p_key, h4) == parse_tokens(Seq::<Seq<char>>::empty(), hfin));
    assert(parse_tokens(Seq::<Seq<char>>::empty(), hfin) == Ok::<Hotkey,
        crate::parse_hotkey_error::ParseHotkeyErrorKind>(hfin));
    assert(toks.len() >= 2);
    assert(spec_parse(spec_render(h)) == Ok::<Hotkey,
        crate::parse_hotkey_error::ParseHotkeyErrorKind>(hfin));
    // The result is equal to the original hotkey.
    match h.key {
        Some(Key::AlphaNumeric(c)) => {
            assert(hfin.key == Some(Key::AlphaNumeric(upper_char(c))));
            assert(upper_char(upper_char(c)) == upper_char(c));
            assert(key_eq(Key::AlphaNumeric(upper_char(c)), Key::AlphaNumeric(c)));
        },
        Some(Key::Special(sk)) => {
            assert(hfin.key == Some(Key::Special(sk)));
        },
        None => {},
    }
    assert(hotkey_eq(hfin, h));
}

/// Round trip: parsing any accepted chord, rendering the result, and
/// parsing again yields an equal hotkey.
pub proof fn lemma_parse_render_round_trip(s: Seq<char>)
    requires
        spec_parse(s) is Ok,
    ensures
        spec_parse(spec_render(spec_parse(s)->Ok_0)) is Ok,
        hotkey_eq(spec_parse(spec_render(spec_parse(s)->Ok_0))->Ok_0, spec_parse(s)->Ok_0),
{
    lemma_parse_valid(s);
    lemma_render_parse(spec_parse(s)->Ok_0);
}

/// Unfolds the search for a case-folded part by one position.
proof fn lemma_has_upper_token_unfold(parts: Seq<Seq<char>>, name: Seq<char>)
    requires
        parts.len() > 0,
    ensures
        has_upper_token(parts, name) == (upper_seq(parts[0]) == name || has_upper_token(
            parts.skip(1),
            name,
        )),
{
    if upper_seq(parts[0]) == name {
        assert(has_upper_token(parts, name));
    }
    if has_upper_token(parts.skip(1), name) {
        let j = choose|j: int|
            0 <= j < parts.skip(1).len() && upper_seq(#[trigger] parts.skip(1)[j]) == name;
        assert(upper_seq(parts[j + 1]) == name);
        assert(has_upper_token(parts, name));
    }
    if has_upper_token(parts, name) && upper_seq(parts[0]) != name {
        let j = choose|j: int| 0 <= j < parts.len() && upper_seq(#[trigger] parts[j]) == name;
        assert(j >= 1);
        assert(upper_seq(parts.skip(1)[j - 1]) == name);
        assert(has_upper_token(parts.skip(1), name));
    }
}

/// A successful pass sets each modifier flag exactly when it started set or
/// some part names that modifier.
pub proof fn lemma_parse_tokens_flags(parts: Seq<Seq<char>>, h: Hotkey)
    requires
        parse_tokens(parts, h) is Ok,
    ensures
        parse_tokens(parts, h)->Ok_0.ctrl == (h.ctrl || has_upper_token(parts, "CTRL"@)),
        parse_tokens(parts, h)->Ok_0.shift == (h.shift || has_upper_token(parts, "SHIFT"@)),
        parse_tokens(parts, h)->Ok_0.alt == (h.alt || has_upper_token(parts, "ALT"@)),
        parse_tokens(parts, h)->Ok_0.win == (h.win || has_upper_token(parts, "WIN"@)),
    decreases parts.len(),
{
    reveal_strlit("CTRL");
    reveal_strlit("SHIFT");
    reveal_strlit("ALT");
    reveal_strlit("WIN");
    assert("CTRL"@.len() == 4 && "SHIFT"@.len() == 5 && "ALT"@.len() == 3 && "WIN"@.len() == 3);
    assert("CTRL"@ != "SHIFT"@ && "CTRL"@ != "ALT"@ && "CTRL"@ != "WIN"@);
    assert("SHIFT"@ != "ALT"@ && "SHIFT"@ != "WIN"@);
    assert("ALT"@[0] != "WIN"@[0]);
    assert("ALT"@ != "WIN"@);
    if parts.len() == 0 {
    } else {
        let t = parts[0];
        lemma_has_upper_token_unfold(parts, "CTRL"@);
        lemma_has_upper_token_unfold(parts, "SHIFT"@);
        lemma_has_upper_token_unfold(parts, "ALT"@);
        lemma_has_upper_token_unfold(parts, "WIN"@);
        if is_modifier_token(t) {
            lemma_parse_tokens_flags(parts.skip(1), apply_modifier(h, t));
        } else if h.key is Some {
        } else if is_alpha_token(t) {
            lemma_parse_tokens_flags(parts.skip(1), with_alpha_key(h, t));
        } else if special_of_upper(upper_seq(t)) is Some {
            lemma_parse_tokens_flags(parts.skip(1), with_special_key(h, t));
        }
    }
}

/// Two passes that start with the same pending key succeed or fail together
/// with the same error kind, and on success agree on the key.
pub proof fn lemma_parse_tokens_same_key(parts: Seq<Seq<char>>, h1: Hotkey, h2: Hotkey)
    requires
        h1.key == h2.key,
    ensures
        (parse_tokens(parts, h1) is Ok) == (parse_tokens(parts, h2) is Ok),
        parse_tokens(parts, h1) is Err ==> parse_tokens(parts, h1) == parse_tokens(parts, h2),
        parse_tokens(parts, h1) is Ok ==> parse_tokens(parts, h1)->Ok_0.key == parse_tokens(
            parts,
            h2,
        )->Ok_0.key,
    decreases parts.len(),
{
    if parts.len() == 0 {
    } else {
        let t = parts[0];
        if is_modifier_token(t) {
            lemma_parse_tokens_same_key(parts.skip(1), apply_modifier(h1, t), apply_modifier(h2, t));
        } else if h1.key is Some {
        } else if is_alpha_token(t) {
            lemma_parse_tokens_same_key(parts.skip(1), with_alpha_key(h1, t), with_alpha_key(h2, t));
        } else if special_of_upper(upper_seq(t)) is Some {
            lemma_parse_tokens_same_key(
                parts.skip(1),
                with_special_key(h1, t),
                with_special_key(h2, t),
            );
        }
    }
}

/// Duplicate modifiers are idempotent: prefixing a chord with a modifier
/// part that already occurs among its parts does not change what parsing
/// yields.
pub proof fn lemma_duplicate_modifier(m: Seq<char>, s: Seq<char>)
    requires
        forall|i: int| 0 <= i < m.len() ==> m[i] != '+',
        is_modifier_token(trim(m)),
        tokens_of(s).len() >= 2,
        has_upper_token(tokens_of(s), upper_seq(trim(m))),
    ensures
        spec_parse(m + seq!['+'] + s) == spec_parse(s),
{
    lemma_split_prefix(m, s);
    let full = m + seq!['+'] + s;
    assert(split_plus(full) == seq![m] + split_plus(s));
    let tf = tokens_of(full);
    let ts = tokens_of(s);
    assert(tf =~= seq![trim(m)] + ts) by {
        assert forall|p: int| 0 <= p < tf.len() implies tf[p] == (seq![trim(m)] + ts)[p] by {
            assert(tf[p] == trim(split_plus(full)[p]));
            if p == 0 {
                assert(split_plus(full)[0] == m);
            } else {
                assert(split_plus(full)[p] == split_plus(s)[p - 1]);
                assert(ts[p - 1] == trim(split_plus(s)[p - 1]));
            }
        }
    }
    let h0 = empty_hotkey();
    let hm = apply_modifier(h0, trim(m));
    assert(tf[0] == trim(m));
    assert(tf.skip(1) =~= ts);
    assert(parse_tokens(tf, h0) == parse_tokens(ts, hm));
    lemma_parse_tokens_same_key(ts, hm, h0);
    if parse_tokens(ts, hm) is Ok {
        lemma_parse_tokens_flags(ts, hm);
        lemma_parse_tokens_flags(ts, h0);
        let r1 = parse_tokens(ts, hm)->Ok_0;
        let r2 = parse_tokens(ts, h0)->Ok_0;
        if is_ctrl_token(trim(m)) {
            assert(hm == (Hotkey { ctrl: true, ..h0 }));
            assert(has_upper_token(ts, "CTRL"@));
        } else if is_shift_token(trim(m)) {
            assert(hm == (Hotkey { shift: true, ..h0 }));
            assert(has_upper_token(ts, "SHIFT"@));
        } else if is_alt_token(trim(m)) {
            assert(hm == (Hotkey { alt: true, ..h0 }));
            assert(has_upper_token(ts, "ALT"@));
        } else {
            assert(hm == (Hotkey { win: true, ..h0 }));
            assert(has_upper_token(ts, "WIN"@));
        }
        assert(r1 =~= r2);
        assert(parse_tokens(ts, hm) == parse_tokens(ts, h0));
    }
    assert(parse_tokens(tf, h0) == parse_tokens(ts, h0));
    assert(tf.len() >= 3);
    assert(spec_parse(full) == parse_tokens(tf, h0));
    assert(spec_parse(s) == parse_tokens(ts, h0));
}

/// The parser's error taxonomy is exhaustive: a failed parse reports one of
/// the four user-facing kinds, never the internal default kind.
pub proof fn lemma_parse_error_kinds(s: Seq<char>)
    ensures
        spec_parse(s) is Err ==> spec_parse(s)->Err_0 != ParseHotkeyErrorKind::Unknow,
{
    if tokens_of(s).len() >= 2 {
        lemma_parse_tokens_error_kinds(tokens_of(s), empty_hotkey());
    }
}

proof fn lemma_parse_tokens_error_kinds(parts: Seq<Seq<char>>, h: Hotkey)
    ensures
        parse_tokens(parts, h) is Err ==> parse_tokens(parts, h)->Err_0
            != ParseHotkeyErrorKind::Unknow,
    decreases parts.len(),
{
    if parts.len() > 0 {
        let t = parts[0];
        if is_modifier_token(t) {
            lemma_parse_tokens_error_kinds(parts.skip(1), apply_modifier(h, t));
        } else if h.key is Some {
        } else if is_alpha_token(t) {
            lemma_parse_tokens_error_kinds(parts.skip(1), with_alpha_key(h, t));
        } else if special_of_upper(upper_seq(t)) is Some {
            lemma_parse_tokens_error_kinds(parts.skip(1), with_special_key(h, t));
        }
    }
}

} // verus!
