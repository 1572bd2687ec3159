//! Which options are handed to mpv before it starts, and as what text.
use vstd::prelude::*;
use indexmap::IndexMap;
use crate::error::{nul_error, nul_message, Error, ErrorView};
use crate::json::{lemma_number_text_has_no_zero_byte, parsed_value, JsonValue, JsonView};
use vstd::utf8::{encode_utf8, is_ascii_chars, is_ascii_chars_encode_utf8};
use crate::maps::{option_at, option_count, option_entries};
use crate::text::{find_zero_byte, first_zero_byte, has_zero_byte};

verus! {

/// The text an option value is set with: booleans as `yes`/`no`, numbers as
/// their JSON text, strings as they are; other values are not set.
pub open spec fn option_text(v: JsonView) -> Option<Seq<char>> {
    match v {
        JsonView::Bool(b) => Some(if b { "yes"@ } else { "no"@ }),
        JsonView::Number(t) => Some(t),
        JsonView::Str(s) => Some(s),
        _ => None,
    }
}

/// The error for a text that holds a zero byte.
pub open spec fn nul_error_of(s: Seq<char>) -> ErrorView {
    ErrorView::InvalidParameter(nul_message(first_zero_byte(s)->0))
}

/// The settings made for a sequence of option entries, in order, and the
/// error that stops them, if one does. Entries whose value has no text, or
/// whose name is empty, are passed over; a zero byte in a name or a value
/// stops the sequence there.
pub open spec fn option_plan(entries: Seq<(Seq<char>, JsonView)>) -> (
    Seq<(Seq<char>, Seq<char>)>,
    Option<ErrorView>,
)
    decreases entries.len(),
{
    if entries.len() == 0 {
        (seq![], None)
    } else {
        let name = entries[0].0;
        let rest = option_plan(entries.drop_first());
        match option_text(entries[0].1) {
            None => rest,
            Some(t) => if name.len() == 0 {
                rest
            } else if has_zero_byte(name) {
                (seq![], Some(nul_error_of(name)))
            } else if has_zero_byte(t) {
                (seq![], Some(nul_error_of(t)))
            } else {
                (seq![(name, t)] + rest.0, rest.1)
            },
        }
    }
}

/// The options to set, in order, and the error met after them, if any.
pub struct OptionPlan {
    pub settings: Vec<(String, String)>,
    pub failure: Option<Error>,
}

/// The view of a list of settings.
pub open spec fn settings_view(s: Seq<(String, String)>) -> Seq<(Seq<char>, Seq<char>)> {
    s.map_values(|p: (String, String)| (p.0@, p.1@))
}

/// The view of an optional error.
pub open spec fn failure_view(f: Option<Error>) -> Option<ErrorView> {
    match f {
        Some(e) => Some(e@),
        None => None,
    }
}

/// The text an option value is set with, if it is set at all.
pub fn option_value_text(v: &JsonValue) -> (r: Option<String>)
    ensures
        match r {
            Some(t) => option_text(v@) == Some(t@),
            None => option_text(v@) is None,
        },
{
    match v {
        JsonValue::Bool(b) => if *b {
            Some(String::from_str("yes"))
        } else {
            Some(String::from_str("no"))
        },
        JsonValue::Number(t) => Some(t.clone()),
        JsonValue::Str(s) => Some(s.clone()),
        _ => None,
    }
}

/// Plans the `mpv_set_option_string` calls for a map of options: the
/// settings to make, in the map's order, and the error that ends them.
pub fn plan_options(options: &IndexMap<String, JsonValue>) -> (p: OptionPlan)
    ensures
        (settings_view(p.settings@), failure_view(p.failure)) == option_plan(
            option_entries(*options),
        ),
{
    let ghost entries = option_entries(*options);
    let n = option_count(options);
    let mut settings: Vec<(String, String)> = Vec::new();
    let mut i: usize = 0;
    assert(entries.skip(0) =~= entries);
    while i < n
        invariant
            entries == option_entries(*options),
            n == entries.len(),
            i <= n,
            option_plan(entries) == (
                settings_view(settings@) + option_plan(entries.skip(i as int)).0,
                option_plan(entries.skip(i as int)).1,
            ),
        decreases n - i,
    {
        let (name, value) = match option_at(options, i) {
            Some(p) => p,
            None => { return OptionPlan { settings, failure: None } },
        };
        let ghost tail = entries.skip(i as int);
        proof {
            assert(tail[0] == entries[i as int]);
            assert(tail.drop_first() =~= entries.skip(i + 1));
        }
        match option_value_text(value) {
            None => {},
            Some(text) => {
                if !name.as_str().is_empty() {
                    match find_zero_byte(name.as_str()) {
                        Some(pos) => {
                            let failure = nul_error(pos);
                            proof {
                                assert(settings_view(settings@) + seq![] =~= settings_view(settings@));
                            }
                            return OptionPlan { settings, failure: Some(failure) };
                        },
                        None => {},
                    }
                    match find_zero_byte(text.as_str()) {
                        Some(pos) => {
                            let failure = nul_error(pos);
                            proof {
                                assert(settings_view(settings@) + seq![] =~= settings_view(settings@));
                            }
                            return OptionPlan { settings, failure: Some(failure) };
                        },
                        None => {},
                    }
                    let ghost before = settings@;
                    settings.push((name.clone(), text));
                    proof {
                        let rest = option_plan(entries.skip(i + 1));
                        assert(settings_view(settings@) =~= settings_view(before) + seq![
                            (name@, text@),
                        ]);
                        assert(settings_view(before) + (seq![(name@, text@)] + rest.0)
                            =~= settings_view(settings@) + rest.0);
                    }
                }
            },
        }
        i += 1;
    }
    proof {
        assert(entries.skip(n as int).len() == 0);
        assert(settings_view(settings@) + seq![] =~= settings_view(settings@));
    }
    OptionPlan { settings, failure: None }
}

/// Every option that is set has a non-empty name, and its name and value
/// can both be handed to C (neither holds a zero byte); each is the text of
/// an entry of the map; and what stops the settings is always a refused
/// parameter.
pub proof fn law_option_settings_are_valid(entries: Seq<(Seq<char>, JsonView)>)
    ensures
        forall|k: int|
            0 <= k < option_plan(entries).0.len() ==> {
                let s = #[trigger] option_plan(entries).0[k];
                &&& s.0.len() > 0
                &&& !has_zero_byte(s.0)
                &&& !has_zero_byte(s.1)
                &&& exists|j: int|
                    0 <= j < entries.len() && entries[j].0 == s.0 && option_text(entries[j].1)
                        == Some(s.1)
            },
        option_plan(entries).1 matches Some(e) ==> e is InvalidParameter,
    decreases entries.len(),
{
    if entries.len() > 0 {
        let rest_entries = entries.drop_first();
        law_option_settings_are_valid(rest_entries);
        let plan = option_plan(entries);
        let rest = option_plan(rest_entries);
        assert forall|k: int| 0 <= k < plan.0.len() implies {
            let s = #[trigger] plan.0[k];
            &&& s.0.len() > 0
            &&& !has_zero_byte(s.0)
            &&& !has_zero_byte(s.1)
            &&& exists|j: int|
                0 <= j < entries.len() && entries[j].0 == s.0 && option_text(entries[j].1) == Some(
                    s.1,
                )
        } by {
            if plan.0 == rest.0 {
                let s = rest.0[k];
                let j = choose|j: int|
                    0 <= j < rest_entries.len() && rest_entries[j].0 == s.0 && option_text(
                        rest_entries[j].1,
                    ) == Some(s.1);
                assert(entries[j + 1] == rest_entries[j]);
            } else if k > 0 {
                let s = rest.0[k - 1];
                assert(plan.0[k] == s);
                let j = choose|j: int|
                    0 <= j < rest_entries.len() && rest_entries[j].0 == s.0 && option_text(
                        rest_entries[j].1,
                    ) == Some(s.1);
                assert(entries[j + 1] == rest_entries[j]);
            } else {
                assert(entries[0].0 == plan.0[0].0);
            }
        }
    }
}

proof fn lemma_yes_no_have_no_zero_byte()
    ensures
        !has_zero_byte("yes"@),
        !has_zero_byte("no"@),
{
    reveal_strlit("yes");
    reveal_strlit("no");
    let y = "yes"@;
    let n = "no"@;
    assert(is_ascii_chars(y));
    assert(is_ascii_chars(n));
    is_ascii_chars_encode_utf8(y);
    is_ascii_chars_encode_utf8(n);
    assert forall|i: int| 0 <= i < encode_utf8(y).len() implies encode_utf8(y)[i] != 0 by {
        assert(y[i] as u8 == encode_utf8(y)[i]);
    }
    assert forall|i: int| 0 <= i < encode_utf8(n).len() implies encode_utf8(n)[i] != 0 by {
        assert(n[i] as u8 == encode_utf8(n)[i]);
    }
}

/// An option read by the JSON parser is never refused for its number: where
/// the settings stop at a zero byte, some entry's name, or some entry's
/// string value, holds that zero byte.
pub proof fn law_number_options_never_refused(entries: Seq<(Seq<char>, JsonView)>)
    requires
        forall|i: int| 0 <= i < entries.len() ==> parsed_value(#[trigger] entries[i].1),
    ensures
        option_plan(entries).1 is Some ==> exists|j: int|
            0 <= j < entries.len() && (has_zero_byte(#[trigger] entries[j].0) || (
            entries[j].1 matches JsonView::Str(v) && has_zero_byte(v))),
    decreases entries.len(),
{
    if entries.len() > 0 {
        let rest = entries.drop_first();
        assert forall|i: int| 0 <= i < rest.len() implies parsed_value(#[trigger] rest[i].1) by {
            assert(rest[i] == entries[i + 1]);
        }
        law_number_options_never_refused(rest);
        let name = entries[0].0;
        let rest_plan = option_plan(rest);
        if rest_plan.1 is Some {
            let j = choose|j: int|
                0 <= j < rest.len() && (has_zero_byte(#[trigger] rest[j].0) || (
                rest[j].1 matches JsonView::Str(v) && has_zero_byte(v)));
            assert(entries[j + 1] == rest[j]);
            assert(has_zero_byte(entries[j + 1].0) || (entries[j + 1].1 matches JsonView::Str(v)
                && has_zero_byte(v)));
        }
        match option_text(entries[0].1) {
            None => {},
            Some(t) => {
                if name.len() != 0 && has_zero_byte(name) {
                    assert(has_zero_byte(entries[0].0));
                } else if name.len() != 0 && has_zero_byte(t) {
                    lemma_yes_no_have_no_zero_byte();
                    if let JsonView::Number(u) = entries[0].1 {
                        assert(parsed_value(entries[0].1));
                        lemma_number_text_has_no_zero_byte(u);
                    }
                    assert(entries[0].1 matches JsonView::Str(v) && has_zero_byte(v));
                }
            },
        }
    }
}

/// True for an entry that is set: its name is not empty and its value is a
/// boolean, a number or a string.
pub open spec fn is_set_entry(e: (Seq<char>, JsonView)) -> bool {
    e.0.len() > 0 && (e.1 is Bool || e.1 is Number || e.1 is Str)
}

/// How many entries of a sequence are set.
pub open spec fn set_count(entries: Seq<(Seq<char>, JsonView)>) -> nat
    decreases entries.len(),
{
    if entries.len() == 0 {
        0
    } else {
        (if is_set_entry(entries[0]) {
            1nat
        } else {
            0nat
        }) + set_count(entries.drop_first())
    }
}

/// True when a setting is the one an entry asks for: the same name, and the
/// value `yes` or `no` for a boolean, a number's JSON text exactly as
/// written (whatever its sign), and a string as it is.
pub open spec fn sets_entry(e: (Seq<char>, JsonView), s: (Seq<char>, Seq<char>)) -> bool {
    &&& s.0 == e.0
    &&& match e.1 {
        JsonView::Bool(b) => s.1 == (if b {
            "yes"@
        } else {
            "no"@
        }),
        JsonView::Number(t) => s.1 == t,
        JsonView::Str(x) => s.1 == x,
        _ => false,
    }
}

/// True when no name and no number or string value of the entries holds a
/// zero byte.
pub open spec fn free_of_zero_bytes(entries: Seq<(Seq<char>, JsonView)>) -> bool {
    forall|j: int|
        0 <= j < entries.len() ==> {
            &&& !has_zero_byte(#[trigger] entries[j].0)
            &&& (entries[j].1 matches JsonView::Number(t) ==> !has_zero_byte(t))
            &&& (entries[j].1 matches JsonView::Str(x) ==> !has_zero_byte(x))
        }
}

proof fn lemma_set_count_take(entries: Seq<(Seq<char>, JsonView)>, j: int)
    requires
        1 <= j <= entries.len(),
    ensures
        set_count(entries.take(j)) == (if is_set_entry(entries[0]) {
            1nat
        } else {
            0nat
        }) + set_count(entries.drop_first().take(j - 1)),
{
    assert(entries.take(j).drop_first() =~= entries.drop_first().take(j - 1));
    assert(entries.take(j)[0] == entries[0]);
}

/// Every option is set: where no name or value holds a zero byte, nothing
/// is refused, and every entry with a non-empty name and a boolean, number
/// or string value is set, in map order (the entry at `j` is the setting
/// after those of the set entries before it), with `yes`/`no` for a
/// boolean, the number's text for a number, and the string for a string;
/// there is no other setting.
pub proof fn law_every_option_is_set(entries: Seq<(Seq<char>, JsonView)>)
    requires
        free_of_zero_bytes(entries),
    ensures
        option_plan(entries).1 is None,
        option_plan(entries).0.len() == set_count(entries),
        forall|j: int|
            0 <= j < entries.len() && is_set_entry(#[trigger] entries[j]) ==> {
                &&& set_count(entries.take(j)) < option_plan(entries).0.len()
                &&& sets_entry(entries[j], option_plan(entries).0[set_count(entries.take(j)) as int])
            },
    decreases entries.len(),
{
    if entries.len() > 0 {
        let rest = entries.drop_first();
        assert(free_of_zero_bytes(rest)) by {
            assert forall|j: int| 0 <= j < rest.len() implies {
                &&& !has_zero_byte(#[trigger] rest[j].0)
                &&& (rest[j].1 matches JsonView::Number(t) ==> !has_zero_byte(t))
                &&& (rest[j].1 matches JsonView::Str(x) ==> !has_zero_byte(x))
            } by {
                assert(rest[j] == entries[j + 1]);
            }
        }
        law_every_option_is_set(rest);
        lemma_yes_no_have_no_zero_byte();
        let e0 = entries[0];
        assert(!has_zero_byte(e0.0));
        let plan = option_plan(entries);
        let rest_plan = option_plan(rest);
        if is_set_entry(e0) {
            let t = option_text(e0.1)->0;
            assert(!has_zero_byte(t));
            assert(plan == (seq![(e0.0, t)] + rest_plan.0, rest_plan.1));
        } else {
            assert(plan == rest_plan);
        }
        assert forall|j: int| 0 <= j < entries.len() && is_set_entry(#[trigger] entries[j]) implies {
            &&& set_count(entries.take(j)) < plan.0.len()
            &&& sets_entry(entries[j], plan.0[set_count(entries.take(j)) as int])
        } by {
            if j == 0 {
                assert(entries.take(0).len() == 0);
                assert(set_count(entries.take(0)) == 0);
            } else {
                lemma_set_count_take(entries, j);
                assert(rest[j - 1] == entries[j]);
                if is_set_entry(e0) {
                    assert(plan.0[set_count(entries.take(j)) as int] == rest_plan.0[set_count(
                        rest.take(j - 1),
                    ) as int]);
                }
            }
        }
    }
}

} // verus!
