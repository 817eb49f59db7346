//! Job identifiers: the word `download_` followed by the time of the launch,
//! in whole milliseconds since the Unix epoch, written in decimal. Where a
//! live job has that identifier already, the next free millisecond stands in.

use crate::registry::JobRegistry;
use std::time::Duration;
use std::time::SystemTime;
use vstd::prelude::*;
use vstd::set_lib::lemma_len_subset;
use vstd::string::*;

verus! {

/// A reading of the system clock. What is inside stays unknown here.
#[verifier::external_type_specification]
#[verifier::external_body]
pub struct ExSystemTime(SystemTime);

/// The character that stands for a digit below ten.
pub open spec fn digit(value: nat) -> char {
    if value == 0 {
        '0'
    } else if value == 1 {
        '1'
    } else if value == 2 {
        '2'
    } else if value == 3 {
        '3'
    } else if value == 4 {
        '4'
    } else if value == 5 {
        '5'
    } else if value == 6 {
        '6'
    } else if value == 7 {
        '7'
    } else if value == 8 {
        '8'
    } else {
        '9'
    }
}

/// A number in decimal, without sign and without leading zeros.
pub open spec fn decimal(value: nat) -> Seq<char>
    decreases value,
{
    if value < 10 {
        seq![digit(value)]
    } else {
        decimal(value / 10).push(digit(value % 10))
    }
}

/// The identifier of a job launched `millis` milliseconds after the epoch.
pub open spec fn download_id_text(millis: nat) -> Seq<char> {
    "download_"@ + decimal(millis)
}

proof fn lemma_decimal_length(value: nat)
    ensures
        decimal(value).len() >= 1,
        value >= 10 ==> decimal(value).len() >= 2,
    decreases value,
{
    if value >= 10 {
        lemma_decimal_length(value / 10);
    }
}

/// Two numbers that are written alike in decimal are the same number.
pub proof fn law_decimal_is_injective(a: nat, b: nat)
    requires
        decimal(a) == decimal(b),
    ensures
        a == b,
    decreases a,
{
    lemma_decimal_length(a);
    lemma_decimal_length(b);
    if a >= 10 && b >= 10 {
        let high_a = decimal(a / 10);
        let high_b = decimal(b / 10);
        assert(high_a.push(digit(a % 10)).drop_last() =~= high_a);
        assert(high_b.push(digit(b % 10)).drop_last() =~= high_b);
        assert(high_a.push(digit(a % 10)).last() == digit(a % 10));
        assert(high_b.push(digit(b % 10)).last() == digit(b % 10));
        law_decimal_is_injective(a / 10, b / 10);
    } else if a < 10 && b < 10 {
        assert(decimal(a)[0] == digit(a));
        assert(decimal(b)[0] == digit(b));
    }
}

/// Jobs launched at different milliseconds get different identifiers.
pub proof fn law_identifiers_differ(earlier: nat, later: nat)
    requires
        earlier != later,
    ensures
        download_id_text(earlier) != download_id_text(later),
{
    let head = "download_"@;
    if download_id_text(earlier) == download_id_text(later) {
        let whole = head + decimal(earlier);
        assert(whole.subrange(head.len() as int, whole.len() as int) =~= decimal(earlier));
        assert(whole.subrange(head.len() as int, whole.len() as int) =~= decimal(later));
        law_decimal_is_injective(earlier, later);
    }
}

/// The one-character text of a digit.
fn digit_text(value: u8) -> (text: &'static str)
    requires
        value < 10,
    ensures
        text@ == seq![digit(value as nat)],
{
    proof {
        reveal_strlit("0");
        reveal_strlit("1");
        reveal_strlit("2");
        reveal_strlit("3");
        reveal_strlit("4");
        reveal_strlit("5");
        reveal_strlit("6");
        reveal_strlit("7");
        reveal_strlit("8");
        reveal_strlit("9");
    }
    let text = if value == 0 {
        "0"
    } else if value == 1 {
        "1"
    } else if value == 2 {
        "2"
    } else if value == 3 {
        "3"
    } else if value == 4 {
        "4"
    } else if value == 5 {
        "5"
    } else if value == 6 {
        "6"
    } else if value == 7 {
        "7"
    } else if value == 8 {
        "8"
    } else {
        "9"
    };
    assert(text@ =~= seq![digit(value as nat)]);
    text
}

/// Writes a number in decimal.
pub fn decimal_text(value: u128) -> (text: String)
    ensures
        text@ == decimal(value as nat),
{
    let mut text = digit_text((value % 10) as u8).to_owned();
    let mut rest = value / 10;
    while rest > 0
        invariant
            rest > 0 ==> decimal(value as nat) == decimal(rest as nat) + text@,
            rest == 0 ==> decimal(value as nat) == text@,
        decreases rest,
    {
        let mut longer = digit_text((rest % 10) as u8).to_owned();
        longer.append(text.as_str());
        proof {
            let low = seq![digit((rest % 10) as nat)];
            if rest < 10 {
                assert(decimal(rest as nat) =~= low);
            } else {
                assert(decimal(rest as nat) + text@ =~= decimal((rest / 10) as nat) + (low
                    + text@));
            }
        }
        text = longer;
        rest = rest / 10;
    }
    text
}

/// The identifier of a job launched `millis` milliseconds after the epoch.
pub fn download_id_for(millis: u128) -> (id: String)
    ensures
        id@ == download_id_text(millis as nat),
{
    let digits = decimal_text(millis);
    String::from_str("download_").concat(digits.as_str())
}

/// Reads the system clock, through `SystemTime::now`. Nothing is promised of
/// the reading: two calls may differ in any way.
#[verifier::external_body]
fn clock_now() -> (now: SystemTime) {
    SystemTime::now()
}

/// The time from the Unix epoch to `now`, through
/// `SystemTime::duration_since`; `None` where `now` lies before the epoch.
/// Nothing more is claimed of it.
#[verifier::external_body]
fn elapsed_since_epoch(now: &SystemTime) -> (elapsed: Option<Duration>) {
    now.duration_since(std::time::UNIX_EPOCH).ok()
}

/// The whole milliseconds in a span of time, through `Duration::as_millis`.
/// Nothing is claimed of the number.
#[verifier::external_body]
fn whole_millis(span: &Duration) -> (millis: u128) {
    span.as_millis()
}

/// The time now, in whole milliseconds since the Unix epoch; `None` where
/// the system clock stands before the epoch. The clock decides.
pub fn unix_millis() -> (millis: Option<u128>) {
    let now = clock_now();
    match elapsed_since_epoch(&now) {
        Some(elapsed) => Some(whole_millis(&elapsed)),
        None => None,
    }
}

/// The identifier that the clock alone gives to a job that is launched now:
/// `None` where the system clock stands before the Unix epoch, else the
/// identifier for the milliseconds that passed since. It does not look at
/// the live jobs; `fresh_download_id` does.
pub fn generate_download_id() -> (id: Option<String>)
    ensures
        id matches Some(text) ==> exists|millis: nat| text@ == #[trigger] download_id_text(millis),
{
    match unix_millis() {
        Some(millis) => Some(download_id_for(millis)),
        None => None,
    }
}

/// The latest millisecond from which identifiers are counted upwards: late
/// enough for every clock, and early enough that counting past all the jobs
/// that a registry can hold stays within the numbers.
pub const LAST_BASE: u128 = 0xffff_ffff_ffff_ffff_0000_0000_0000_0000;

/// The millisecond from which the search for a free identifier sets out.
pub open spec fn base_of(millis: nat) -> nat {
    if millis <= LAST_BASE {
        millis
    } else {
        LAST_BASE as nat
    }
}

/// Whether `stamp` is the first millisecond at or after `base` whose
/// identifier is not that of a live job.
pub open spec fn first_free<H>(jobs: Map<Seq<char>, H>, base: nat, stamp: nat) -> bool {
    &&& base <= stamp
    &&& !jobs.contains_key(download_id_text(stamp))
    &&& forall|earlier: nat|
        base <= earlier < stamp ==> jobs.contains_key(#[trigger] download_id_text(earlier))
}

/// The identifier for a job that is launched at `millis` beside the jobs of
/// `registry`: that of `millis` itself where no live job has it, else that
/// of the first later millisecond that is free. So no two jobs that are live
/// at the same time share an identifier, even when they are launched in the
/// same millisecond. To be called, with the registration that follows, while
/// nobody else can touch the registry.
pub fn fresh_download_id<H>(registry: &JobRegistry<H>, millis: u128) -> (id: String)
    ensures
        !registry@.contains_key(id@),
        exists|stamp: nat|
            first_free(registry@, base_of(millis as nat), stamp) && id@ == #[trigger] download_id_text(
                stamp,
            ),
        millis <= LAST_BASE && !registry@.contains_key(download_id_text(millis as nat)) ==> id@
            == download_id_text(millis as nat),
{
    let count = registry.len();
    let base: u128 = if millis <= LAST_BASE {
        millis
    } else {
        LAST_BASE
    };
    let mut stamp: u128 = base;
    let mut id = download_id_for(stamp);
    let ghost mut taken: Set<Seq<char>> = Set::empty();
    while registry.contains(&id)
        invariant
            base == base_of(millis as nat),
            base <= LAST_BASE,
            base <= stamp,
            taken.finite(),
            taken.len() == stamp - base,
            taken.subset_of(registry@.dom()),
            registry@.dom().finite(),
            registry@.len() == count,
            forall|text: Seq<char>| #[trigger]
                taken.contains(text) ==> exists|earlier: nat|
                    base <= earlier < stamp && text == #[trigger] download_id_text(earlier),
            forall|earlier: nat|
                base <= earlier < stamp ==> registry@.contains_key(
                    #[trigger] download_id_text(earlier),
                ),
            id@ == download_id_text(stamp as nat),
        decreases count - (stamp - base),
    {
        proof {
            if taken.contains(id@) {
                let earlier = choose|earlier: nat|
                    base <= earlier < stamp && id@ == #[trigger] download_id_text(earlier);
                law_identifiers_differ(earlier, stamp as nat);
            }
            lemma_len_subset(taken, registry@.dom());
            let ghost before = taken;
            taken = taken.insert(id@);
            lemma_len_subset(taken, registry@.dom());
            assert forall|text: Seq<char>| #[trigger] taken.contains(text) implies exists|
                earlier: nat,
            |
                base <= earlier < stamp + 1 && text == #[trigger] download_id_text(earlier) by {
                if text == id@ {
                    assert(text == download_id_text(stamp as nat));
                } else {
                    assert(before.contains(text));
                    let earlier = choose|earlier: nat|
                        base <= earlier < stamp && text == #[trigger] download_id_text(earlier);
                    assert(base <= earlier < stamp + 1 && text == download_id_text(earlier));
                }
            }
        }
        stamp = stamp + 1;
        id = download_id_for(stamp);
    }
    proof {
        assert(first_free(registry@, base_of(millis as nat), stamp as nat));
        if millis <= LAST_BASE && !registry@.contains_key(download_id_text(millis as nat)) {
            if stamp > base {
                assert(registry@.contains_key(download_id_text(base as nat)));
            }
        }
    }
    id
}

} // verus!
