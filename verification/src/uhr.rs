//! The hourly schedule: how long to sleep until the next report, and which
//! hour that report belongs to.

use std::time::UNIX_EPOCH;
use vstd::prelude::*;
use vstd::string::*;

verus! {

pub const SEKUNDEN_PRO_STUNDE: u64 = 3600;

pub const STUNDEN_PRO_TAG: u64 = 24;

/// The first full hour strictly after the moment `s`, in seconds since the epoch.
pub open spec fn naechste_volle_stunde(s: int) -> int {
    (s / 3600 + 1) * 3600
}

/// The moment of the next report: one second past the next full hour.
pub open spec fn naechste_meldung(s: int) -> int {
    naechste_volle_stunde(s) + 1
}

/// The hour of the day (UTC) that contains the moment `s`.
pub open spec fn stunde_des_tages(s: int) -> int {
    (s / 3600) % 24
}

/// The decimal digit `d` as a character.
pub open spec fn ziffer_zeichen(d: int) -> char {
    ('0' as int + d) as char
}

/// The label of an hour of the day, such as `07:00 UTC`.
pub open spec fn stunden_text(h: int) -> Seq<char> {
    seq![ziffer_zeichen(h / 10), ziffer_zeichen(h % 10)] + ":00 UTC"@
}

/// The decimal digit `d` as a string of one character.
fn ziffer(d: u64) -> (text: &'static str)
    requires
        d < 10,
    ensures
        text@ == seq![ziffer_zeichen(d as int)],
{
    proof {
        reveal_strlit("0");
        reveal_strlit("1");
        reveal_strlit("2");
        reveal_strlit("3");
        reveal_strlit("4");
        reveal_strlit("5");
        reveal_strlit("6");
        reveal_strlit("7");
        reveal_strlit("8");
        reveal_strlit("9");
    }
    match d {
        0 => "0",
        1 => "1",
        2 => "2",
        3 => "3",
        4 => "4",
        5 => "5",
        6 => "6",
        7 => "7",
        8 => "8",
        _ => "9",
    }
}

/// Writes an hour of the day with two digits, followed by `:00 UTC`.
fn stunde_beschriften(h: u64) -> (text: String)
    requires
        h < STUNDEN_PRO_TAG,
    ensures
        text@ == stunden_text(h as int),
{
    let mut text = String::from_str(ziffer(h / 10));
    text.append(ziffer(h % 10));
    text.append(":00 UTC");
    assert(text@ =~= stunden_text(h as int));
    text
}

/// For a moment given in seconds since the epoch: the number of seconds until
/// the next report, and the label of the hour that begins just before it.
pub fn zeit_bis_naechste_stunde(sekunden_seit_epoche: u64) -> (ergebnis: (u64, String))
    ensures
        sekunden_seit_epoche + ergebnis.0 == naechste_meldung(sekunden_seit_epoche as int),
        ergebnis.1@ == stunden_text(
            stunde_des_tages(naechste_volle_stunde(sekunden_seit_epoche as int)),
        ),
{
    let sekunden_in_dieser_stunde: u64 = sekunden_seit_epoche % SEKUNDEN_PRO_STUNDE;
    let sekunden_bis_zur_stunde: u64 = SEKUNDEN_PRO_STUNDE - sekunden_in_dieser_stunde + 1;
    let naechste_stunde_utc: u64 = (sekunden_seit_epoche / SEKUNDEN_PRO_STUNDE + 1)
        % STUNDEN_PRO_TAG;
    (sekunden_bis_zur_stunde, stunde_beschriften(naechste_stunde_utc))
}

/// The same for a reading of the clock, where `None` stands for a clock that is
/// set to a moment before the epoch: such a reading has no answer, and every
/// other has one.
pub fn zeit_fuer_ablesung(ablesung: Option<u64>) -> (ergebnis: Option<(u64, String)>)
    ensures
        ergebnis is Some <==> ablesung is Some,
        ablesung matches Some(jetzt) ==> {
            &&& jetzt + ergebnis->Some_0.0 == naechste_meldung(jetzt as int)
            &&& ergebnis->Some_0.1@ == stunden_text(
                stunde_des_tages(naechste_volle_stunde(jetzt as int)),
            )
        },
{
    match ablesung {
        Some(jetzt) => Some(zeit_bis_naechste_stunde(jetzt)),
        None => None,
    }
}

/// Reads the system clock with `std::time::SystemTime::elapsed`, called on the
/// Unix epoch, and hands the reading out in whole seconds; `None` stands for the
/// error of a clock that is set to an earlier moment. Nothing is claimed of the
/// reading: it depends on the clock alone.
#[verifier::external_body]
fn systemzeit() -> (sekunden_seit_epoche: Option<u64>) {
    match UNIX_EPOCH.elapsed() {
        Ok(dauer) => Some(dauer.as_secs()),
        Err(_) => None,
    }
}

/// `ablesung` is what reading the system clock came back with.
pub closed spec fn abgelesen(ablesung: Option<u64>) -> bool {
    call_ensures(systemzeit, (), ablesung)
}

/// The sleep until the next report and the label of its hour, for the present
/// moment; `None` when the system clock is set to a moment before the epoch.
/// Whatever the clock shows, the answer is the one that
/// [`zeit_fuer_ablesung`] gives for that reading.
pub fn berechne_zeit_bis_naechste_stunde() -> (ergebnis: Option<(u64, String)>)
    ensures
        exists|ablesung: Option<u64>|
            {
                &&& #[trigger] abgelesen(ablesung)
                &&& ergebnis is Some <==> ablesung is Some
                &&& ablesung matches Some(jetzt) ==> {
                    &&& jetzt + ergebnis->Some_0.0 == naechste_meldung(jetzt as int)
                    &&& ergebnis->Some_0.1@ == stunden_text(
                        stunde_des_tages(naechste_volle_stunde(jetzt as int)),
                    )
                }
            },
{
    let ablesung: Option<u64> = systemzeit();
    assert(abgelesen(ablesung));
    zeit_fuer_ablesung(ablesung)
}

/// The moment of the `n`-th report after `s`, when each sleep ends on time.
pub open spec fn meldung_nr(s: int, n: nat) -> int
    decreases n,
{
    if n == 0 {
        s
    } else {
        naechste_meldung(meldung_nr(s, (n - 1) as nat))
    }
}

/// The next report is at least two seconds and at most an hour and a second away.
pub proof fn gesetz_wartezeit(s: int)
    ensures
        2 <= naechste_meldung(s) - s <= 3601,
{
}

/// The report falls into the hour that its label announces.
pub proof fn gesetz_angekuendigte_stunde(s: int)
    ensures
        stunde_des_tages(naechste_meldung(s)) == stunde_des_tages(naechste_volle_stunde(s)),
        0 <= stunde_des_tages(naechste_volle_stunde(s)) < 24,
{
}

/// Reports are an hour apart, also when a sleep ends `verspaetung` seconds late:
/// as long as that is less than 3599 seconds, no hour is skipped and none is
/// reported twice.
pub proof fn gesetz_stuendlich(s: int, verspaetung: int)
    requires
        0 <= verspaetung < 3599,
    ensures
        naechste_meldung(naechste_meldung(s) + verspaetung) == naechste_meldung(s) + 3600,
{
}

/// With punctual sleeps the `n`-th report follows the first by `n - 1` hours.
pub proof fn gesetz_meldungen_im_stundentakt(s: int, n: nat)
    requires
        n >= 1,
    ensures
        meldung_nr(s, n) == naechste_meldung(s) + (n - 1) * 3600,
    decreases n,
{
    if n == 1 {
        assert(meldung_nr(s, 0) == s);
    } else {
        gesetz_meldungen_im_stundentakt(s, (n - 1) as nat);
        let davor = meldung_nr(s, (n - 1) as nat);
        assert(davor == naechste_meldung(s + (n - 2) * 3600));
        gesetz_stuendlich(s + (n - 2) * 3600, 0);
    }
}

/// Two labels are equal only for the same hour of the day.
pub proof fn gesetz_beschriftung_eindeutig(g: int, h: int)
    requires
        0 <= g < 24,
        0 <= h < 24,
        stunden_text(g) == stunden_text(h),
    ensures
        g == h,
{
    assert(stunden_text(g)[0] == ziffer_zeichen(g / 10));
    assert(stunden_text(g)[1] == ziffer_zeichen(g % 10));
    assert(stunden_text(h)[0] == ziffer_zeichen(h / 10));
    assert(stunden_text(h)[1] == ziffer_zeichen(h % 10));
}

/// The next full hour is a multiple of 3600 seconds, later than `s` and at most
/// an hour away; the report comes one second after it.
pub proof fn gesetz_volle_stunde(s: int)
    ensures
        naechste_volle_stunde(s) % 3600 == 0,
        s < naechste_volle_stunde(s) <= s + 3600,
        naechste_meldung(s) - naechste_volle_stunde(s) == 1,
        naechste_meldung(s) % 3600 == 1,
{
}

/// The hours of the day begin with 0 at the epoch, each lasts 3600 seconds, and
/// 24 of them make a day: all moments of an hour have the same number, the next
/// hour the next one, and a day later the number is the same.
pub proof fn gesetz_stunde_des_tages(s: int, t: int)
    ensures
        stunde_des_tages(0) == 0,
        0 <= stunde_des_tages(s) < 24,
        stunde_des_tages(s + 3600) == (stunde_des_tages(s) + 1) % 24,
        s / 3600 == t / 3600 ==> stunde_des_tages(s) == stunde_des_tages(t),
        stunde_des_tages(s + 86400) == stunde_des_tages(s),
        0 <= s % 86400 - 3600 * stunde_des_tages(s) < 3600,
{
}

/// A digit's character lies as far behind `0` as the digit says.
pub proof fn gesetz_ziffer(d: int)
    requires
        0 <= d < 10,
    ensures
        ziffer_zeichen(d) as int - '0' as int == d,
{
}

/// The label of an hour reads as that hour: two digits, whose value it is, and
/// then `:00 UTC`.
pub proof fn gesetz_beschriftung_lesbar(h: int)
    requires
        0 <= h < 24,
    ensures
        stunden_text(h).len() == 9,
        '0' <= stunden_text(h)[0] <= '9',
        '0' <= stunden_text(h)[1] <= '9',
        10 * (stunden_text(h)[0] as int - '0' as int) + (stunden_text(h)[1] as int - '0' as int)
            == h,
        stunden_text(h).subrange(2, 9) == ":00 UTC"@,
{
    reveal_strlit(":00 UTC");
    assert(":00 UTC"@.len() == 7);
    assert(stunden_text(h)[0] == ziffer_zeichen(h / 10));
    assert(stunden_text(h)[1] == ziffer_zeichen(h % 10));
    gesetz_ziffer(h / 10);
    gesetz_ziffer(h % 10);
    assert(stunden_text(h).subrange(2, 9) =~= ":00 UTC"@);
}

/// Whoever sleeps as told wakes one second into an hour, after at least two and
/// at most 3601 seconds, and the two digits of the label are the number of that
/// hour: since midnight UTC, that many hours and one second have passed.
pub proof fn gesetz_wecken(jetzt: u64, ergebnis: (u64, String))
    requires
        call_ensures(zeit_bis_naechste_stunde, (jetzt,), ergebnis),
    ensures
        2 <= ergebnis.0 <= 3601,
        ergebnis.1@.len() == 9,
        '0' <= ergebnis.1@[0] <= '9',
        '0' <= ergebnis.1@[1] <= '9',
        (jetzt + ergebnis.0) % 86400 == 3600 * (10 * (ergebnis.1@[0] as int - '0' as int) + (
        ergebnis.1@[1] as int - '0' as int)) + 1,
        ergebnis.1@.subrange(2, 9) == ":00 UTC"@,
{
    let volle = naechste_volle_stunde(jetzt as int);
    gesetz_volle_stunde(jetzt as int);
    gesetz_stunde_des_tages(volle, volle);
    gesetz_beschriftung_lesbar(stunde_des_tages(volle));
}

/// An hour later the wait is the same, and the label is that of the next hour;
/// within an hour the label stays, and the wait shrinks as time passes.
pub proof fn gesetz_wecken_im_vergleich(
    jetzt: u64,
    ergebnis: (u64, String),
    spaeter: u64,
    danach: (u64, String),
)
    requires
        call_ensures(zeit_bis_naechste_stunde, (jetzt,), ergebnis),
        call_ensures(zeit_bis_naechste_stunde, (spaeter,), danach),
    ensures
        spaeter == jetzt + 3600 ==> {
            &&& danach.0 == ergebnis.0
            &&& 10 * (danach.1@[0] as int - '0' as int) + (danach.1@[1] as int - '0' as int) == (10
                * (ergebnis.1@[0] as int - '0' as int) + (ergebnis.1@[1] as int - '0' as int) + 1)
                % 24
        },
        spaeter / 3600 == jetzt / 3600 ==> {
            &&& danach.1@ == ergebnis.1@
            &&& spaeter + danach.0 == jetzt + ergebnis.0
        },
{
    let volle = naechste_volle_stunde(jetzt as int);
    gesetz_stunde_des_tages(volle, volle);
    gesetz_beschriftung_lesbar(stunde_des_tages(volle));
    gesetz_beschriftung_lesbar(stunde_des_tages(naechste_volle_stunde(spaeter as int)));
    if spaeter == jetzt + 3600 {
        assert(naechste_volle_stunde(spaeter as int) == volle + 3600);
    }
}

/// For a reading of the clock the same holds, and there is an answer exactly if
/// there is a reading.
pub proof fn gesetz_wecken_nach_ablesung(
    ablesung: Option<u64>,
    ergebnis: Option<(u64, String)>,
)
    requires
        call_ensures(zeit_fuer_ablesung, (ablesung,), ergebnis),
    ensures
        ablesung is None ==> ergebnis is None,
        ablesung matches Some(jetzt) ==> (ergebnis matches Some(p) && {
            &&& 2 <= p.0 <= 3601
            &&& p.1@.len() == 9
            &&& '0' <= p.1@[0] <= '9'
            &&& '0' <= p.1@[1] <= '9'
            &&& (jetzt + p.0) % 86400 == 3600 * (10 * (p.1@[0] as int - '0' as int) + (p.1@[1] as int
                - '0' as int)) + 1
            &&& p.1@.subrange(2, 9) == ":00 UTC"@
        }),
{
    if let Some(jetzt) = ablesung {
        let volle = naechste_volle_stunde(jetzt as int);
        gesetz_volle_stunde(jetzt as int);
        gesetz_stunde_des_tages(volle, volle);
        gesetz_beschriftung_lesbar(stunde_des_tages(volle));
    }
}

/// The same holds of the answer for the present moment and of what the clock
/// was read as.
pub proof fn gesetz_wecken_nach_uhr(ergebnis: Option<(u64, String)>)
    requires
        call_ensures(berechne_zeit_bis_naechste_stunde, (), ergebnis),
    ensures
        exists|ablesung: Option<u64>|
            {
                &&& #[trigger] abgelesen(ablesung)
                &&& ablesung is None ==> ergebnis is None
                &&& ablesung matches Some(jetzt) ==> (ergebnis matches Some(p) && {
                    &&& 2 <= p.0 <= 3601
                    &&& p.1@.len() == 9
                    &&& '0' <= p.1@[0] <= '9'
                    &&& '0' <= p.1@[1] <= '9'
                    &&& (jetzt + p.0) % 86400 == 3600 * (10 * (p.1@[0] as int - '0' as int) + (
                    p.1@[1] as int - '0' as int)) + 1
                    &&& p.1@.subrange(2, 9) == ":00 UTC"@
                })
            },
{
    let ablesung = choose|ablesung: Option<u64>|
        {
            &&& #[trigger] abgelesen(ablesung)
            &&& ergebnis is Some <==> ablesung is Some
            &&& ablesung matches Some(jetzt) ==> {
                &&& jetzt + ergebnis->Some_0.0 == naechste_meldung(jetzt as int)
                &&& ergebnis->Some_0.1@ == stunden_text(
                    stunde_des_tages(naechste_volle_stunde(jetzt as int)),
                )
            }
        };
    assert(abgelesen(ablesung));
    if let Some(jetzt) = ablesung {
        let volle = naechste_volle_stunde(jetzt as int);
        gesetz_volle_stunde(jetzt as int);
        gesetz_stunde_des_tages(volle, volle);
        gesetz_beschriftung_lesbar(stunde_des_tages(volle));
    }
}

/// Only what the clock itself came back with counts as read from it.
proof fn gesetz_abgelesen(ablesung: Option<u64>)
    ensures
        abgelesen(ablesung) <==> call_ensures(systemzeit, (), ablesung),
{
}

} // verus!
