//! Widget configuration values, as the configuration file hands them to a
//! widget: a table of named options whose values are integers, strings,
//! arrays and nested tables.

use vstd::prelude::*;

verus! {

/// One option value of a widget's configuration table.
#[derive(Debug)]
pub enum OptionValue {
    Integer(i64),
    Str(String),
    Array(Vec<OptionValue>),
    Table(Vec<(String, OptionValue)>),
    /// Any other kind of value (boolean, float, date), which no widget of
    /// this crate reads.
    Other,
}

/// A `[widgets.<name>]` entry of the configuration: its option table.
#[derive(Debug)]
pub struct WidgetEntry {
    pub options: Vec<(String, OptionValue)>,
}

/// The value stored under `key` in a table: the first pair whose key is
/// `key`.
pub open spec fn table_get(t: Seq<(String, OptionValue)>, key: Seq<char>) -> Option<OptionValue>
    decreases t.len(),
{
    if t.len() == 0 {
        None
    } else if t[0].0@ == key {
        Some(t[0].1)
    } else {
        table_get(t.drop_first(), key)
    }
}

/// The integer held by an optional value, if it is one.
pub open spec fn integer_of(v: Option<OptionValue>) -> Option<i64> {
    match v {
        Some(OptionValue::Integer(i)) => Some(i),
        _ => None,
    }
}

/// The characters of the string held by an optional value, if it is one.
pub open spec fn str_of(v: Option<OptionValue>) -> Option<Seq<char>> {
    match v {
        Some(OptionValue::Str(s)) => Some(s@),
        _ => None,
    }
}

/// A lookup finds the value of the first pair with the key, and finds
/// nothing exactly when no pair has the key.
pub proof fn table_get_finds_first_key(t: Seq<(String, OptionValue)>, key: Seq<char>)
    ensures
        table_get(t, key) matches Some(v) ==> exists|i: int|
            0 <= i < t.len() && (#[trigger] t[i]).0@ == key && t[i].1 == v && forall|j: int|
                0 <= j < i ==> (#[trigger] t[j]).0@ != key,
        table_get(t, key) is None ==> forall|i: int| 0 <= i < t.len() ==> (#[trigger] t[i]).0@ != key,
    decreases t.len(),
{
    if t.len() > 0 && t[0].0@ != key {
        let rest = t.drop_first();
        table_get_finds_first_key(rest, key);
        if table_get(t, key) is Some {
            let v = table_get(t, key).unwrap();
            let i = choose|i: int|
                0 <= i < rest.len() && (#[trigger] rest[i]).0@ == key && rest[i].1 == v && forall|
                    j: int,
                | 0 <= j < i ==> (#[trigger] rest[j]).0@ != key;
            assert(t[i + 1] == rest[i]);
            assert forall|j: int| 0 <= j < i + 1 implies (#[trigger] t[j]).0@ != key by {
                if j > 0 {
                    assert(t[j] == rest[j - 1]);
                }
            }
        } else {
            assert forall|i: int| 0 <= i < t.len() implies (#[trigger] t[i]).0@ != key by {
                if i > 0 {
                    assert(t[i] == rest[i - 1]);
                }
            }
        }
    } else if t.len() > 0 {
        assert(t[0].0@ == key);
    }
}

proof fn lemma_table_get_skip(t: Seq<(String, OptionValue)>, key: Seq<char>, i: int)
    requires
        0 <= i < t.len(),
        t[i].0@ != key,
    ensures
        table_get(t.skip(i), key) == table_get(t.skip(i + 1), key),
{
    assert(t.skip(i).drop_first() =~= t.skip(i + 1));
}

/// Looks up `key` in a table.
pub fn get_option<'a>(t: &'a Vec<(String, OptionValue)>, key: &str) -> (res: Option<&'a OptionValue>)
    ensures
        match res {
            Some(v) => table_get(t@, key@) == Some(*v),
            None => table_get(t@, key@) is None,
        },
        res matches Some(v) ==> exists|i: int|
            0 <= i < t@.len() && (#[trigger] t@[i]).0@ == key@ && t@[i].1 == *v && forall|j: int|
                0 <= j < i ==> (#[trigger] t@[j]).0@ != key@,
        res is None ==> forall|i: int| 0 <= i < t@.len() ==> (#[trigger] t@[i]).0@ != key@,
{
    proof {
        table_get_finds_first_key(t@, key@);
    }
    let k = key.to_owned();
    let mut i: usize = 0;
    assert(t@.skip(0) =~= t@);
    while i < t.len()
        invariant
            i <= t.len(),
            k@ == key@,
            table_get(t@, key@) == table_get(t@.skip(i as int), key@),
        decreases t.len() - i,
    {
        if t[i].0 == k {
            proof {
                table_get_finds_first_key(t@, key@);
            }
            return Some(&t[i].1);
        }
        proof {
            lemma_table_get_skip(t@, key@, i as int);
        }
        i = i + 1;
    }
    None
}

/// The characters of each string.
pub open spec fn strings_view(v: Seq<String>) -> Seq<Seq<char>> {
    v.map_values(|s: String| s@)
}

/// The keys of a table that are not among `known`, in table order.
pub open spec fn unknown_keys(options: Seq<(String, OptionValue)>, known: Seq<Seq<char>>) -> Seq<
    Seq<char>,
>
    decreases options.len(),
{
    if options.len() == 0 {
        Seq::empty()
    } else {
        unknown_keys(options.drop_last(), known) + if known.contains(options.last().0@) {
            Seq::empty()
        } else {
            seq![options.last().0@]
        }
    }
}

/// The unknown keys are exactly the table's keys that are not known: every
/// key of the table that is not known is reported, and every reported key
/// is a key of the table that is not known.
pub proof fn unknown_keys_are_the_unknown_table_keys(
    options: Seq<(String, OptionValue)>,
    known: Seq<Seq<char>>,
)
    ensures
        forall|i: int|
            0 <= i < options.len() && !known.contains((#[trigger] options[i]).0@) ==> unknown_keys(
                options,
                known,
            ).contains(options[i].0@),
        forall|k: int|
            #![trigger unknown_keys(options, known)[k]]
            0 <= k < unknown_keys(options, known).len() ==> exists|i: int|
                0 <= i < options.len() && (#[trigger] options[i]).0@ == unknown_keys(options, known)[k]
                    && !known.contains(options[i].0@),
    decreases options.len(),
{
    if options.len() > 0 {
        let init = options.drop_last();
        unknown_keys_are_the_unknown_table_keys(init, known);
        let last = options.last();
        let tail = if known.contains(last.0@) {
            Seq::<Seq<char>>::empty()
        } else {
            seq![last.0@]
        };
        let u = unknown_keys(options, known);
        let ui = unknown_keys(init, known);
        assert(u == ui + tail);
        assert forall|i: int|
            0 <= i < options.len() && !known.contains((#[trigger] options[i]).0@) implies u.contains(
            options[i].0@,
        ) by {
            if i < options.len() - 1 {
                assert(init[i] == options[i]);
                let k = choose|k: int| 0 <= k < ui.len() && ui[k] == options[i].0@;
                assert(u[k] == ui[k]);
            } else {
                assert(u[ui.len() as int] == options[i].0@);
            }
        }
        assert forall|k: int| #![trigger u[k]] 0 <= k < u.len() implies exists|i: int|
            0 <= i < options.len() && (#[trigger] options[i]).0@ == u[k] && !known.contains(
                options[i].0@,
            ) by {
            if k < ui.len() {
                let i = choose|i: int|
                    0 <= i < init.len() && (#[trigger] init[i]).0@ == ui[k] && !known.contains(
                        init[i].0@,
                    );
                assert(options[i] == init[i]);
            } else {
                assert(options[options.len() - 1] == last);
            }
        }
    }
}

proof fn lemma_reported_keys_are_unknown(
    options: Seq<(String, OptionValue)>,
    known: Seq<Seq<char>>,
    reported: Seq<String>,
)
    requires
        strings_view(reported) == unknown_keys(options, known),
    ensures
        forall|k: int|
            #![trigger reported[k]]
            0 <= k < reported.len() ==> exists|i: int|
                0 <= i < options.len() && (#[trigger] options[i]).0@ == reported[k]@
                    && !known.contains(options[i].0@),
{
    unknown_keys_are_the_unknown_table_keys(options, known);
    assert forall|k: int| #![trigger reported[k]] 0 <= k < reported.len() implies exists|i: int|
        0 <= i < options.len() && (#[trigger] options[i]).0@ == reported[k]@ && !known.contains(
            options[i].0@,
        ) by {
        let u = unknown_keys(options, known);
        assert(u[k] == reported[k]@);
    }
}

/// The keys of an option table that a widget does not read, in table order,
/// for the widget to warn about.
pub fn unknown_option_keys(options: &Vec<(String, OptionValue)>, known: &Vec<String>) -> (res: Vec<
    String,
>)
    ensures
        strings_view(res@) == unknown_keys(options@, strings_view(known@)),
        forall|i: int|
            0 <= i < options@.len() && !strings_view(known@).contains((#[trigger] options@[i]).0@)
                ==> strings_view(res@).contains(options@[i].0@),
        forall|k: int|
            #![trigger res@[k]]
            0 <= k < res@.len() ==> exists|i: int|
                0 <= i < options@.len() && (#[trigger] options@[i]).0@ == res@[k]@
                    && !strings_view(known@).contains(options@[i].0@),
{
    let mut unknown: Vec<String> = Vec::new();
    let mut i: usize = 0;
    while i < options.len()
        invariant
            i <= options.len(),
            strings_view(unknown@) == unknown_keys(options@.take(i as int), strings_view(known@)),
        decreases options.len() - i,
    {
        let ghost before = unknown@;
        assert(options@.take(i + 1).drop_last() =~= options@.take(i as int));
        assert(options@.take(i + 1).last() == options@[i as int]);
        let key = &options[i].0;
        let mut is_known = false;
        let mut j: usize = 0;
        while j < known.len()
            invariant
                j <= known.len(),
                is_known <==> exists|q: int| 0 <= q < j && (#[trigger] known@[q])@ == key@,
            decreases known.len() - j,
        {
            if known[j] == *key {
                is_known = true;
            }
            j = j + 1;
        }
        proof {
            if is_known {
                let q = choose|q: int| 0 <= q < known.len() && (#[trigger] known@[q])@ == key@;
                assert(strings_view(known@)[q] == key@);
            }
            if strings_view(known@).contains(key@) {
                let q = choose|q: int| 0 <= q < known.len() && strings_view(known@)[q] == key@;
                assert(known@[q]@ == key@);
            }
        }
        if !is_known {
            unknown.push(key.clone());
            assert(strings_view(unknown@) =~= strings_view(before) + seq![key@]);
        } else {
            assert(strings_view(unknown@) =~= strings_view(before) + Seq::<Seq<char>>::empty());
        }
        i = i + 1;
    }
    assert(options@.take(options.len() as int) =~= options@);
    proof {
        unknown_keys_are_the_unknown_table_keys(options@, strings_view(known@));
    }
    proof {
        lemma_reported_keys_are_unknown(options@, strings_view(known@), unknown@);
    }
    unknown
}

/// An integer value holds that integer and a string value those
/// characters; values of any other kind hold neither, and a missing value
/// holds nothing.
pub proof fn value_accessors_read_their_kind(v: OptionValue)
    ensures
        v matches OptionValue::Integer(i) ==> integer_of(Some(v)) == Some(i),
        v matches OptionValue::Str(s) ==> str_of(Some(v)) == Some(s@),
        v !is Integer ==> integer_of(Some(v)) is None,
        v !is Str ==> str_of(Some(v)) is None,
        integer_of(None) is None,
        str_of(None) is None,
{
}

} // verus!
