//! The list of output devices that is shown to the user.

use crate::text;
use vstd::prelude::*;
use vstd::string::*;

verus! {

/// The descriptions of those devices that have one.
pub open spec fn described(devices: Seq<Option<String>>) -> Seq<Seq<char>>
    decreases devices.len(),
{
    if devices.len() == 0 {
        Seq::empty()
    } else {
        let front = described(devices.drop_last());
        match devices.last() {
            Some(name) => front.push(name@),
            None => front,
        }
    }
}

/// Each text once, where it first occurs.
pub open spec fn first_occurrences(names: Seq<Seq<char>>) -> Seq<Seq<char>>
    decreases names.len(),
{
    if names.len() == 0 {
        Seq::empty()
    } else {
        let front = first_occurrences(names.drop_last());
        if front.contains(names.last()) {
            front
        } else {
            front.push(names.last())
        }
    }
}

/// The names that are listed for the given devices.
pub open spec fn device_names(devices: Seq<Option<String>>) -> Seq<Seq<char>> {
    first_occurrences(described(devices))
}

/// Whether `name` is in the list.
fn contains_name(names: &Vec<String>, name: &String) -> (found: bool)
    ensures
        found == text::lines(names@).contains(name@),
{
    let mut i: usize = 0;
    while i < names.len()
        invariant
            i <= names@.len(),
            forall|j: int| 0 <= j < i ==> #[trigger] text::lines(names@)[j] != name@,
        decreases names@.len() - i,
    {
        if names[i] == *name {
            assert(text::lines(names@)[i as int] == name@);
            return true;
        }
        i += 1;
    }
    false
}

/// The distinct descriptions of the devices that have one, in the order in
/// which they first occur.
pub fn distinct_names(devices: Vec<Option<String>>) -> (names: Vec<String>)
    ensures
        text::lines(names@) == device_names(devices@),
{
    let mut names: Vec<String> = Vec::new();
    let mut i: usize = 0;
    assert(text::lines(names@) == device_names(devices@.take(0)));
    while i < devices.len()
        invariant
            i <= devices@.len(),
            text::lines(names@) == device_names(devices@.take(i as int)),
        decreases devices@.len() - i,
    {
        let ghost before = devices@.take(i as int);
        let ghost after = devices@.take(i + 1);
        let ghost names_before = names@;
        assert(after.drop_last() == before);
        match &devices[i] {
            Some(name) => {
                proof {
                    assert(described(after).drop_last() == described(before));
                }
                if !contains_name(&names, name) {
                    names.push(name.clone());
                    assert(text::lines(names@) == text::lines(names_before).push(name@));
                }
            },
            None => {},
        }
        i += 1;
    }
    assert(devices@.take(i as int) == devices@);
    names
}

/// The lines that are shown where `devices` were found; `None` where the
/// search failed. A device without a description is `None` in the list.
pub open spec fn report_lines(devices: Option<Seq<Option<String>>>) -> Seq<Seq<char>> {
    match devices {
        None => seq!["Unable to find available devices"@],
        Some(list) => if device_names(list).len() == 0 {
            seq!["No output devices found"@]
        } else {
            seq!["Available output devices:"@] + device_names(list)
        },
    }
}

/// What is shown to a user who asks for the output devices.
pub fn device_report(devices: Option<Vec<Option<String>>>) -> (report: Vec<String>)
    ensures
        text::lines(report@) == report_lines(
            match devices {
                Some(list) => Some(list@),
                None => None,
            },
        ),
{
    let mut report: Vec<String> = Vec::new();
    match devices {
        None => {
            report.push("Unable to find available devices".to_owned());
            assert(text::lines(report@) == seq!["Unable to find available devices"@]);
        },
        Some(list) => {
            let mut names = distinct_names(list);
            assert(names@.len() == text::lines(names@).len());
            if names.len() == 0 {
                report.push("No output devices found".to_owned());
                assert(text::lines(report@) == seq!["No output devices found"@]);
            } else {
                report.push("Available output devices:".to_owned());
                assert(text::lines(report@) == seq!["Available output devices:"@]);
                let ghost head = report@;
                let ghost rest = names@;
                report.append(&mut names);
                assert(text::lines(report@) == text::lines(head) + text::lines(rest));
            }
        },
    }
    report
}

/// No name is listed twice, and a name is listed if and only if some device
/// has it as its description.
pub proof fn lemma_each_name_once(devices: Seq<Option<String>>)
    ensures
        device_names(devices).no_duplicates(),
        forall|name: Seq<char>| #[trigger]
            device_names(devices).contains(name) <==> exists|i: int|
                0 <= i < devices.len() && #[trigger] devices[i] is Some && devices[i]->0@ == name,
{
    lemma_first_occurrences(described(devices));
    lemma_described(devices);
}

proof fn lemma_first_occurrences(names: Seq<Seq<char>>)
    ensures
        first_occurrences(names).no_duplicates(),
        forall|name: Seq<char>| #[trigger]
            first_occurrences(names).contains(name) <==> names.contains(name),
    decreases names.len(),
{
    if names.len() > 0 {
        let front = names.drop_last();
        let firsts = first_occurrences(front);
        lemma_first_occurrences(front);
        assert forall|name: Seq<char>| #[trigger]
            first_occurrences(names).contains(name) <==> names.contains(name) by {
            assert(names == front.push(names.last()));
            lemma_push_contains(front, names.last(), name);
            lemma_push_contains(firsts, names.last(), name);
        }
    }
}

proof fn lemma_push_contains<A>(list: Seq<A>, last: A, item: A)
    ensures
        list.push(last).contains(item) <==> list.contains(item) || item == last,
{
    if list.contains(item) {
        let i = choose|i: int| 0 <= i < list.len() && list[i] == item;
        assert(list.push(last)[i] == item);
    }
    assert(list.push(last)[list.len() as int] == last);
}

proof fn lemma_described(devices: Seq<Option<String>>)
    ensures
        forall|name: Seq<char>| #[trigger]
            described(devices).contains(name) <==> exists|i: int|
                0 <= i < devices.len() && #[trigger] devices[i] is Some && devices[i]->0@ == name,
    decreases devices.len(),
{
    if devices.len() > 0 {
        let front = devices.drop_last();
        lemma_described(front);
        assert forall|name: Seq<char>| #[trigger]
            described(devices).contains(name) <==> exists|i: int|
                0 <= i < devices.len() && #[trigger] devices[i] is Some && devices[i]->0@
                    == name by {
            if devices.last() is Some {
                lemma_push_contains(described(front), devices.last()->0@, name);
            }
            if described(front).contains(name) {
                let i = choose|i: int|
                    0 <= i < front.len() && #[trigger] front[i] is Some && front[i]->0@ == name;
                assert(devices[i] is Some && devices[i]->0@ == name);
            }
            if exists|i: int|
                0 <= i < devices.len() && #[trigger] devices[i] is Some && devices[i]->0@ == name {
                let i = choose|i: int|
                    0 <= i < devices.len() && #[trigger] devices[i] is Some && devices[i]->0@
                        == name;
                if i < front.len() {
                    assert(front[i] is Some && front[i]->0@ == name);
                }
            }
            assert(devices[devices.len() - 1] == devices.last());
        }
    }
}

/// What is shown: if the search failed, that it did; if no device has a
/// description, that none was found; and else a heading and then every
/// description that some device has, each once, and nothing else.
pub proof fn lemma_report_shows_every_device(devices: Seq<Option<String>>, i: int)
    ensures
        report_lines(None) == seq!["Unable to find available devices"@],
        report_lines(Some(devices)) == seq!["No output devices found"@] <==> forall|j: int|
            0 <= j < devices.len() ==> #[trigger] devices[j] is None,
        0 <= i < devices.len() && devices[i] is Some ==> {
            let report = report_lines(Some(devices));
            &&& report.len() >= 2
            &&& report[0] == "Available output devices:"@
            &&& exists|k: int| 1 <= k < report.len() && #[trigger] report[k] == devices[i]->0@
            &&& forall|k: int|
                1 <= k < report.len() ==> exists|j: int|
                    0 <= j < devices.len() && #[trigger] devices[j] is Some && devices[j]->0@
                        == #[trigger] report[k]
            &&& forall|k: int, l: int|
                1 <= k < l < report.len() ==> #[trigger] report[k] != #[trigger] report[l]
        },
{
    let report = report_lines(Some(devices));
    let names = device_names(devices);
    lemma_each_name_once(devices);
    reveal_strlit("No output devices found");
    reveal_strlit("Available output devices:");
    if forall|j: int| 0 <= j < devices.len() ==> #[trigger] devices[j] is None {
        if names.len() > 0 {
            assert(names.contains(names[0]));
        }
    } else {
        let j = choose|j: int| 0 <= j < devices.len() && !(#[trigger] devices[j] is None);
        assert(names.contains(devices[j]->0@));
        assert(report[0] == "Available output devices:"@);
        assert("No output devices found"@.len() != "Available output devices:"@.len());
        assert(seq!["No output devices found"@][0] == "No output devices found"@);
    }
    if 0 <= i < devices.len() && devices[i] is Some {
        let name = devices[i]->0@;
        assert(names.contains(name));
        let n = choose|n: int| 0 <= n < names.len() && names[n] == name;
        assert(report == seq!["Available output devices:"@] + names);
        assert(report[n + 1] == name);
        assert forall|k: int| 1 <= k < report.len() implies exists|j: int|
            0 <= j < devices.len() && #[trigger] devices[j] is Some && devices[j]->0@
                == #[trigger] report[k] by {
            assert(report[k] == names[k - 1]);
            assert(names.contains(names[k - 1]));
        }
        assert forall|k: int, l: int| 1 <= k < l < report.len() implies #[trigger] report[k]
            != #[trigger] report[l] by {
            assert(report[k] == names[k - 1]);
            assert(report[l] == names[l - 1]);
        }
    }
}

/// Devices that are found later are listed later: what is shown of the first
/// devices stands, in the same order, before what is added for the others.
pub proof fn lemma_report_grows_at_its_end(a: Seq<Option<String>>, b: Seq<Option<String>>)
    requires
        exists|i: int| 0 <= i < a.len() && #[trigger] a[i] is Some,
    ensures
        report_lines(Some(a)).is_prefix_of(report_lines(Some(a + b))),
{
    lemma_names_grow_at_their_end(a, b);
    lemma_each_name_once(a);
    let i = choose|i: int| 0 <= i < a.len() && #[trigger] a[i] is Some;
    assert(device_names(a).contains(a[i]->0@));
    let heading = seq!["Available output devices:"@];
    let longer = heading + device_names(a + b);
    assert(longer.take((1 + device_names(a).len()) as int) == heading + device_names(a));
}

proof fn lemma_names_grow_at_their_end(a: Seq<Option<String>>, b: Seq<Option<String>>)
    ensures
        device_names(a).is_prefix_of(device_names(a + b)),
    decreases b.len(),
{
    if b.len() == 0 {
        assert(a + b == a);
    } else {
        lemma_names_grow_at_their_end(a, b.drop_last());
        assert((a + b).drop_last() == a + b.drop_last());
        assert((a + b).last() == b.last());
        if b.last() is Some {
            let names = described(a + b.drop_last());
            assert(names.push(b.last()->0@).drop_last() == names);
        }
    }
}

} // verus!
