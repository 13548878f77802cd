//! Debouncing of the meter's contact.
//!
//! Moments are nanoseconds of a monotonic clock, counted from any fixed origin.

use crate::konfiguration::DEBOUNCE_MS;
use vstd::prelude::*;

verus! {

/// What waiting for an interrupt ended with.
#[derive(Clone, Copy, Debug, PartialEq, Eq, Structural)]
pub enum GpioEreignis {
    /// A falling edge, seen at the moment `jetzt`.
    Flanke { jetzt: u128 },
    /// The wait ended without an interrupt.
    Zeitablauf,
    /// The driver reported an error.
    Fehler,
}

/// What is to be done about it.
#[derive(Clone, Copy, Debug, PartialEq, Eq, Structural)]
pub enum GpioAktion {
    /// Count one pulse.
    Zaehlen,
    /// Wait for the next interrupt.
    Nichts,
    /// Log the driver's error.
    FehlerMelden,
}

/// Remembers the last counted edge.
pub struct Entprellung {
    letzte_ausloesung: u128,
}

/// The debounce time in nanoseconds.
pub open spec fn prellzeit() -> int {
    DEBOUNCE_MS * 1_000_000
}

/// An edge at `jetzt` is counted when strictly more than the debounce time has
/// passed since the last counted edge.
pub open spec fn zaehlt(letzte: int, jetzt: int) -> bool {
    jetzt - letzte > prellzeit()
}

/// The last counted edge after an edge at `jetzt`: bounces leave it unchanged.
pub open spec fn nach_flanke(letzte: int, jetzt: int) -> int {
    if zaehlt(letzte, jetzt) {
        jetzt
    } else {
        letzte
    }
}

impl View for Entprellung {
    type V = int;

    /// The moment of the last counted edge.
    closed spec fn view(&self) -> int {
        self.letzte_ausloesung as int
    }
}

impl Entprellung {
    /// Starts at the moment `jetzt`, as if an edge had just been counted.
    pub fn new(jetzt: u128) -> (entprellung: Self)
        ensures
            entprellung@ == jetzt,
    {
        Entprellung { letzte_ausloesung: jetzt }
    }

    /// Decides what an interrupt, or the lack of one, leads to.
    pub fn verarbeite(&mut self, ereignis: GpioEreignis) -> (aktion: GpioAktion)
        ensures
            match ereignis {
                GpioEreignis::Flanke { jetzt } => {
                    &&& final(self)@ == nach_flanke(old(self)@, jetzt as int)
                    &&& aktion == if zaehlt(old(self)@, jetzt as int) {
                        GpioAktion::Zaehlen
                    } else {
                        GpioAktion::Nichts
                    }
                },
                GpioEreignis::Zeitablauf => final(self)@ == old(self)@ && aktion
                    == GpioAktion::Nichts,
                GpioEreignis::Fehler => final(self)@ == old(self)@ && aktion
                    == GpioAktion::FehlerMelden,
            },
            aktion is Zaehlen <==> (ereignis matches GpioEreignis::Flanke { jetzt } && jetzt - old(self)@
                > DEBOUNCE_MS * 1_000_000),
            aktion is FehlerMelden <==> ereignis is Fehler,
            ereignis matches GpioEreignis::Flanke { jetzt } ==> (aktion is Zaehlen ==> final(self)@
                == jetzt),
            !(aktion is Zaehlen) ==> final(self)@ == old(self)@,
    {
        match ereignis {
            GpioEreignis::Flanke { jetzt } => {
                let vergangen: u128 = if jetzt > self.letzte_ausloesung {
                    jetzt - self.letzte_ausloesung
                } else {
                    0
                };
                if vergangen > DEBOUNCE_MS as u128 * 1_000_000 {
                    self.letzte_ausloesung = jetzt;
                    GpioAktion::Zaehlen
                } else {
                    GpioAktion::Nichts
                }
            },
            GpioEreignis::Zeitablauf => GpioAktion::Nichts,
            GpioEreignis::Fehler => GpioAktion::FehlerMelden,
        }
    }
}

/// The last counted edge after edges at the moments `flanken`.
pub open spec fn nach_flanken(letzte: int, flanken: Seq<int>) -> int
    decreases flanken.len(),
{
    if flanken.len() == 0 {
        letzte
    } else {
        nach_flanke(nach_flanken(letzte, flanken.drop_last()), flanken.last())
    }
}

/// Those of the edges `flanken` that are counted, in order.
pub open spec fn gezaehlte(letzte: int, flanken: Seq<int>) -> Seq<int>
    decreases flanken.len(),
{
    if flanken.len() == 0 {
        seq![]
    } else {
        let davor = gezaehlte(letzte, flanken.drop_last());
        if zaehlt(nach_flanken(letzte, flanken.drop_last()), flanken.last()) {
            davor.push(flanken.last())
        } else {
            davor
        }
    }
}

/// The debounce time is half a second: an edge is counted if it comes more than
/// 500 000 000 nanoseconds after the last counted one, however much later, and
/// not otherwise; a counted edge becomes the last counted one, and no other does.
pub proof fn gesetz_zaehlt_nach_prellzeit(letzte: int, jetzt: int)
    ensures
        prellzeit() == 500_000_000,
        zaehlt(letzte, jetzt) <==> jetzt - letzte > 500_000_000,
        jetzt - letzte > 500_000_000 ==> nach_flanke(letzte, jetzt) == jetzt,
        jetzt - letzte <= 500_000_000 ==> nach_flanke(letzte, jetzt) == letzte,
{
}

/// An edge that is counted is counted at every later moment too, and shifting
/// both moments changes nothing: only the time between them matters.
pub proof fn gesetz_nur_der_abstand_zaehlt(letzte: int, jetzt: int, spaeter: int, d: int)
    requires
        jetzt <= spaeter,
    ensures
        zaehlt(letzte, jetzt) ==> zaehlt(letzte, spaeter),
        zaehlt(letzte + d, jetzt + d) <==> zaehlt(letzte, jetzt),
        nach_flanke(letzte + d, jetzt + d) == nach_flanke(letzte, jetzt) + d,
{
}

/// An edge more than half a second after every earlier one is counted, and it
/// becomes the last counted one.
pub proof fn gesetz_spaete_flanke_zaehlt(letzte: int, flanken: Seq<int>, jetzt: int)
    requires
        jetzt - letzte > 500_000_000,
        forall|i: int| 0 <= i < flanken.len() ==> jetzt - #[trigger] flanken[i] > 500_000_000,
    ensures
        gezaehlte(letzte, flanken.push(jetzt)) == gezaehlte(letzte, flanken).push(jetzt),
        nach_flanken(letzte, flanken.push(jetzt)) == jetzt,
{
    lemma_letzte_ist_eine_flanke(letzte, flanken);
    assert(flanken.push(jetzt).drop_last() =~= flanken);
}

/// The last counted edge is one of the edges, or the start.
proof fn lemma_letzte_ist_eine_flanke(letzte: int, flanken: Seq<int>)
    ensures
        nach_flanken(letzte, flanken) == letzte || exists|i: int|
            0 <= i < flanken.len() && nach_flanken(letzte, flanken) == #[trigger] flanken[i],
    decreases flanken.len(),
{
    if flanken.len() > 0 {
        let davor = flanken.drop_last();
        lemma_letzte_ist_eine_flanke(letzte, davor);
        assert(flanken.last() == flanken[flanken.len() - 1]);
        assert(forall|i: int| 0 <= i < davor.len() ==> davor[i] == flanken[i]);
    }
}

/// Of any edges, in any order, the counted ones are more than the debounce time
/// apart: from the start to the `i`-th, and between the `i`-th and the `j`-th,
/// the debounce time has passed once for each.
pub proof fn gesetz_abstand(letzte: int, flanken: Seq<int>)
    ensures
        ({
            let g = gezaehlte(letzte, flanken);
            &&& nach_flanken(letzte, flanken) == if g.len() == 0 {
                letzte
            } else {
                g.last()
            }
            &&& forall|i: int|
                0 <= i < g.len() ==> #[trigger] g[i] - letzte > (i + 1) * prellzeit()
            &&& forall|i: int, j: int|
                0 <= i < j < g.len() ==> #[trigger] g[j] - #[trigger] g[i] > (j - i) * prellzeit()
        }),
    decreases flanken.len(),
{
    if flanken.len() > 0 {
        gesetz_abstand(letzte, flanken.drop_last());
        let davor = gezaehlte(letzte, flanken.drop_last());
        let g = gezaehlte(letzte, flanken);
        assert(forall|i: int| 0 <= i < davor.len() ==> g[i] == davor[i]);
    }
}

/// Contact bounce never counts twice: when an edge at `t` is counted, the edges
/// that follow within the debounce time are not, however many they are.
pub proof fn gesetz_prellen_zaehlt_einmal(letzte: int, t: int, prellen: Seq<int>)
    requires
        zaehlt(letzte, t),
        forall|i: int| 0 <= i < prellen.len() ==> #[trigger] prellen[i] <= t + prellzeit(),
    ensures
        gezaehlte(letzte, seq![t] + prellen) == seq![t],
        nach_flanken(letzte, seq![t] + prellen) == t,
    decreases prellen.len(),
{
    let alle = seq![t] + prellen;
    if prellen.len() == 0 {
        assert(alle.drop_last() =~= seq![]);
        assert(gezaehlte(letzte, alle.drop_last()) =~= seq![]);
        assert(nach_flanken(letzte, alle.drop_last()) == letzte);
    } else {
        assert(alle.drop_last() =~= seq![t] + prellen.drop_last());
        gesetz_prellen_zaehlt_einmal(letzte, t, prellen.drop_last());
    }
}

/// Edges that are far enough apart are all counted.
pub proof fn gesetz_keine_flanke_verloren(letzte: int, flanken: Seq<int>)
    requires
        flanken.len() > 0 ==> zaehlt(letzte, flanken[0]),
        forall|i: int| 0 < i < flanken.len() ==> zaehlt(flanken[i - 1], #[trigger] flanken[i]),
    ensures
        gezaehlte(letzte, flanken) == flanken,
    decreases flanken.len(),
{
    if flanken.len() > 0 {
        let davor = flanken.drop_last();
        gesetz_keine_flanke_verloren(letzte, davor);
        gesetz_abstand(letzte, davor);
        assert(davor.push(flanken.last()) =~= flanken);
    }
}

} // verus!
