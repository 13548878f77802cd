//! The meter: its reading, the reading at the last report, and whether a
//! starting value is known.
//!
//! The meter moves numbers of any type `V` about and leaves calculating and
//! reading them to the functions that it is given.

use crate::konfiguration::{
    DIFFERENZ_TOPIC, DIFFERENZ_TOPIC_KWH, NEUVERSUCH_SEKUNDEN, SETZE_TOPIC,
    STARTWERT_FRIST_SEKUNDEN, WERT_TOPIC,
};
use crate::mqtt::{
    entscheide, entscheidung, gesetz_ganzer_text, stand_meldung, verbrauch_kwh_meldung,
    verbrauch_meldung, Auftrag, AuftragSicht, Ereignis, EreignisSicht, Qos, Veroeffentlichung,
    VeroeffentlichungSicht, Ziel,
};
use vstd::prelude::*;
use vstd::utf8::*;

verus! {

/// The state of the meter.
#[derive(Debug)]
pub struct Zaehler<V> {
    /// The present reading.
    pub stand: V,
    /// The reading at the last hourly report, or the value set since.
    pub letzter_stundenwert: V,
    /// Whether a starting value is known, so that none is taken from the broker.
    pub initialisiert: bool,
}

/// The factors that turn a volume of gas into energy.
#[derive(Debug)]
pub struct Tarif<V> {
    pub brennwert: V,
    pub zustandswert: V,
}

/// An hourly report.
pub struct Stundenbericht<V> {
    /// The reading now.
    pub aktueller_wert: V,
    /// The reading that the report starts from.
    pub letzter_wert: V,
    /// The consumption in cubic metres, to be published first.
    pub verbrauch: Veroeffentlichung<V>,
    /// The consumption in kilowatt hours, to be published second.
    pub verbrauch_kwh: Veroeffentlichung<V>,
}

/// What handling an event leads to.
pub enum Folge<V> {
    /// The reading of an earlier run was restored.
    Wiederhergestellt { wert: V },
    /// The reading was set; `meldung` is to be published.
    Gesetzt { meldung: Veroeffentlichung<V> },
    /// The text that was to be set is no number.
    UngueltigerPayload { text: String },
    /// The connection stands.
    VerbundenMelden,
    /// After this many seconds the time limit for a starting value ends.
    FristStarten { sekunden: u64 },
    /// Pause for this many seconds before the next attempt.
    NeuversuchNach { sekunden: u64 },
    /// Nothing is left to be done.
    Nichts,
}

/// A consequence, its text and topic as sequences.
pub enum FolgeSicht<V> {
    Wiederhergestellt { wert: V },
    Gesetzt { meldung: VeroeffentlichungSicht<V> },
    UngueltigerPayload { text: Seq<char> },
    VerbundenMelden,
    FristStarten { sekunden: u64 },
    NeuversuchNach { sekunden: u64 },
    Nichts,
}

impl<V> View for Folge<V> {
    type V = FolgeSicht<V>;

    open spec fn view(&self) -> FolgeSicht<V> {
        match self {
            Folge::Wiederhergestellt { wert } => FolgeSicht::Wiederhergestellt { wert: *wert },
            Folge::Gesetzt { meldung } => FolgeSicht::Gesetzt { meldung: meldung@ },
            Folge::UngueltigerPayload { text } => FolgeSicht::UngueltigerPayload { text: text@ },
            Folge::VerbundenMelden => FolgeSicht::VerbundenMelden,
            Folge::FristStarten { sekunden } => FolgeSicht::FristStarten { sekunden: *sekunden },
            Folge::NeuversuchNach { sekunden } => FolgeSicht::NeuversuchNach {
                sekunden: *sekunden,
            },
            Folge::Nichts => FolgeSicht::Nichts,
        }
    }
}

/// What adopting a number for `ziel` leads to, where `gelesen` is the number that
/// `text` was read as, or `None` where it is no number.
pub open spec fn uebernahme_folge<V>(
    ziel: Ziel,
    text: Seq<char>,
    gelesen: Option<V>,
) -> FolgeSicht<V> {
    match (ziel, gelesen) {
        (Ziel::Startwert, Some(wert)) => FolgeSicht::Wiederhergestellt { wert },
        (Ziel::Startwert, None) => FolgeSicht::Nichts,
        (Ziel::Setzen, Some(wert)) => FolgeSicht::Gesetzt { meldung: stand_meldung(wert) },
        (Ziel::Setzen, None) => FolgeSicht::UngueltigerPayload { text },
    }
}

/// Something that happens to the meter.
pub enum Vorgang<V> {
    /// A pulse raises the reading to `stand`.
    Impuls { stand: V },
    /// The hour is over.
    Stunde,
    /// A message arrives; its text, should it be wanted, reads as `gelesen`.
    Empfang { topic: Seq<char>, payload: Seq<u8>, gelesen: Option<V> },
    /// The time limit for a starting value ends.
    Frist,
}

impl<V> Zaehler<V> {
    /// The meter with `wert` as its reading and as the start of the next report.
    pub open spec fn mit_wert(self, wert: V) -> Self {
        Zaehler { stand: wert, letzter_stundenwert: wert, initialisiert: true }
    }

    /// The meter after the number `gelesen`, if it is one, has been adopted.
    pub open spec fn nach_uebernahme(self, gelesen: Option<V>) -> Self {
        match gelesen {
            Some(wert) => self.mit_wert(wert),
            None => self,
        }
    }

    /// The meter after `vorgang`.
    pub open spec fn nach(self, vorgang: Vorgang<V>) -> Self {
        match vorgang {
            Vorgang::Impuls { stand } => Zaehler { stand, ..self },
            Vorgang::Stunde => Zaehler { letzter_stundenwert: self.stand, ..self },
            Vorgang::Empfang { topic, payload, gelesen } => match entscheidung(
                self.initialisiert,
                EreignisSicht::Nachricht { topic, payload },
            ) {
                AuftragSicht::Lies { ziel, text } => self.nach_uebernahme(gelesen),
                _ => self,
            },
            Vorgang::Frist => if self.initialisiert {
                self
            } else {
                self.mit_wert(self.stand)
            },
        }
    }

    /// The meter after all of `vorgaenge`, in order.
    pub open spec fn nach_allen(self, vorgaenge: Seq<Vorgang<V>>) -> Self
        decreases vorgaenge.len(),
    {
        if vorgaenge.len() == 0 {
            self
        } else {
            self.nach_allen(vorgaenge.drop_last()).nach(vorgaenge.last())
        }
    }
}

impl<V: Copy> Zaehler<V> {
    /// A meter that reads `anfang` and knows no starting value yet.
    pub fn new(anfang: V) -> (zaehler: Self)
        ensures
            zaehler == (Zaehler {
                stand: anfang,
                letzter_stundenwert: anfang,
                initialisiert: false,
            }),
    {
        Zaehler { stand: anfang, letzter_stundenwert: anfang, initialisiert: false }
    }

    /// Counts a pulse: the reading grows by `schritt`, as `plus` adds, and the
    /// new reading is to be published.
    pub fn impuls<P: Fn(V, V) -> V>(&mut self, schritt: V, plus: P) -> (meldung: Veroeffentlichung<V>)
        requires
            call_requires(plus, (old(self).stand, schritt)),
        ensures
            call_ensures(plus, (old(self).stand, schritt), final(self).stand),
            *final(self) == old(self).nach(Vorgang::Impuls { stand: final(self).stand }),
            meldung@ == stand_meldung(final(self).stand),
            final(self).letzter_stundenwert == old(self).letzter_stundenwert,
            final(self).initialisiert == old(self).initialisiert,
            meldung.topic@ == WERT_TOPIC@,
            meldung.qos is MindestensEinmal,
            meldung.retained,
            meldung.wert == final(self).stand,
    {
        let stand = plus(self.stand, schritt);
        self.stand = stand;
        Veroeffentlichung {
            topic: WERT_TOPIC,
            qos: Qos::MindestensEinmal,
            retained: true,
            wert: stand,
        }
    }

    /// Reports the consumption since the last report, as `minus` subtracts, and
    /// the same in energy: times `brennwert`, times `zustandswert`, as `mal`
    /// multiplies. The next report starts from the present reading.
    pub fn stundenbericht<M: Fn(V, V) -> V, T: Fn(V, V) -> V>(
        &mut self,
        tarif: Tarif<V>,
        minus: M,
        mal: T,
    ) -> (bericht: Stundenbericht<V>)
        requires
            call_requires(minus, (old(self).stand, old(self).letzter_stundenwert)),
            forall|differenz: V| #[trigger]
                call_ensures(
                    minus,
                    (old(self).stand, old(self).letzter_stundenwert),
                    differenz,
                ) ==> call_requires(mal, (differenz, tarif.brennwert)),
            forall|differenz: V, brennwert_mal: V|
                call_ensures(
                    minus,
                    (old(self).stand, old(self).letzter_stundenwert),
                    differenz,
                ) && #[trigger] call_ensures(mal, (differenz, tarif.brennwert), brennwert_mal)
                    ==> call_requires(mal, (brennwert_mal, tarif.zustandswert)),
        ensures
            *final(self) == old(self).nach(Vorgang::Stunde),
            bericht.aktueller_wert == old(self).stand,
            bericht.letzter_wert == old(self).letzter_stundenwert,
            bericht.verbrauch@ == verbrauch_meldung(bericht.verbrauch.wert),
            call_ensures(
                minus,
                (old(self).stand, old(self).letzter_stundenwert),
                bericht.verbrauch.wert,
            ),
            bericht.verbrauch_kwh@ == verbrauch_kwh_meldung(bericht.verbrauch_kwh.wert),
            exists|brennwert_mal: V| #[trigger]
                call_ensures(mal, (bericht.verbrauch.wert, tarif.brennwert), brennwert_mal)
                    && call_ensures(
                    mal,
                    (brennwert_mal, tarif.zustandswert),
                    bericht.verbrauch_kwh.wert,
                ),
            final(self).stand == old(self).stand,
            final(self).letzter_stundenwert == old(self).stand,
            final(self).initialisiert == old(self).initialisiert,
            bericht.verbrauch.topic@ == DIFFERENZ_TOPIC@,
            bericht.verbrauch.qos is MindestensEinmal,
            !bericht.verbrauch.retained,
            bericht.verbrauch_kwh.topic@ == DIFFERENZ_TOPIC_KWH@,
            bericht.verbrauch_kwh.qos is MindestensEinmal,
            !bericht.verbrauch_kwh.retained,
    {
        let aktueller_wert = self.stand;
        let letzter_wert = self.letzter_stundenwert;
        let differenz = minus(aktueller_wert, letzter_wert);
        self.letzter_stundenwert = aktueller_wert;
        let differenz_brennwert = mal(differenz, tarif.brennwert);
        let differenz_kwh = mal(differenz_brennwert, tarif.zustandswert);
        Stundenbericht {
            aktueller_wert,
            letzter_wert,
            verbrauch: Veroeffentlichung {
                topic: DIFFERENZ_TOPIC,
                qos: Qos::MindestensEinmal,
                retained: false,
                wert: differenz,
            },
            verbrauch_kwh: Veroeffentlichung {
                topic: DIFFERENZ_TOPIC_KWH,
                qos: Qos::MindestensEinmal,
                retained: false,
                wert: differenz_kwh,
            },
        }
    }

    /// Adopts the number that `text` was read as for `ziel`, if it is one.
    pub fn uebernehme(&mut self, ziel: Ziel, text: String, gelesen: Option<V>) -> (folge: Folge<V>)
        ensures
            *final(self) == old(self).nach_uebernahme(gelesen),
            folge@ == uebernahme_folge(ziel, text@, gelesen),
            match gelesen {
                Some(wert) => {
                    &&& final(self).stand == wert
                    &&& final(self).letzter_stundenwert == wert
                    &&& final(self).initialisiert
                    &&& ziel is Startwert ==> (folge matches Folge::Wiederhergestellt { wert: w } && w
                        == wert)
                    &&& ziel is Setzen ==> (folge matches Folge::Gesetzt { meldung } && {
                        &&& meldung.topic@ == WERT_TOPIC@
                        &&& meldung.qos is MindestensEinmal
                        &&& meldung.retained
                        &&& meldung.wert == wert
                    })
                },
                None => {
                    &&& *final(self) == *old(self)
                    &&& ziel is Startwert ==> folge is Nichts
                    &&& ziel is Setzen ==> (folge matches Folge::UngueltigerPayload { text: t } && t@
                        == text@)
                },
            },
    {
        match gelesen {
            Some(wert) => {
                self.stand = wert;
                self.letzter_stundenwert = wert;
                self.initialisiert = true;
            },
            None => {},
        }
        match (ziel, gelesen) {
            (Ziel::Startwert, Some(wert)) => Folge::Wiederhergestellt { wert },
            (Ziel::Startwert, None) => Folge::Nichts,
            (Ziel::Setzen, Some(wert)) => Folge::Gesetzt {
                meldung: Veroeffentlichung {
                    topic: WERT_TOPIC,
                    qos: Qos::MindestensEinmal,
                    retained: true,
                    wert,
                },
            },
            (Ziel::Setzen, None) => Folge::UngueltigerPayload { text },
        }
    }

    /// Handles an event of the connection. A number in it is read by `lies`,
    /// which answers `None` for a text that is no number.
    pub fn verarbeite<L: Fn(&str) -> Option<V>>(&mut self, ereignis: &Ereignis, lies: L) -> (folge:
        Folge<V>)
        requires
            forall|text: &str| #[trigger] call_requires(lies, (text,)),
        ensures
            match entscheidung(old(self).initialisiert, ereignis@) {
                AuftragSicht::Lies { ziel, text } => exists|t: &str, gelesen: Option<V>|
                    {
                        &&& t@ == text
                        &&& #[trigger] call_ensures(lies, (t,), gelesen)
                        &&& *final(self) == old(self).nach_uebernahme(gelesen)
                        &&& folge@ == uebernahme_folge(ziel, text, gelesen)
                    },
                AuftragSicht::VerbundenMelden => *final(self) == *old(self) && folge@
                    == FolgeSicht::<V>::VerbundenMelden,
                AuftragSicht::FristStarten { sekunden } => *final(self) == *old(self) && folge@
                    == (FolgeSicht::<V>::FristStarten { sekunden }),
                AuftragSicht::NeuversuchNach { sekunden } => *final(self) == *old(self) && folge@
                    == (FolgeSicht::<V>::NeuversuchNach { sekunden }),
                AuftragSicht::Nichts => *final(self) == *old(self) && folge@
                    == FolgeSicht::<V>::Nichts,
            },
            ereignis@ matches EreignisSicht::Nachricht { topic, payload } ==> exists|
                gelesen: Option<V>,
            | *final(self) == #[trigger] old(self).nach(
                Vorgang::Empfang { topic, payload, gelesen },
            ),
            *ereignis matches Ereignis::Nachricht { topic, payload } ==> {
                &&& valid_utf8(payload@) && topic@ == SETZE_TOPIC@ ==> exists|
                    t: &str,
                    gelesen: Option<V>,
                |
                    {
                        &&& encode_utf8(t@) == payload@
                        &&& #[trigger] call_ensures(lies, (t,), gelesen)
                        &&& match gelesen {
                            Some(wert) => {
                                &&& final(self).stand == wert
                                &&& final(self).letzter_stundenwert == wert
                                &&& final(self).initialisiert
                                &&& folge matches Folge::Gesetzt { meldung } && {
                                    &&& meldung.topic@ == WERT_TOPIC@
                                    &&& meldung.qos is MindestensEinmal
                                    &&& meldung.retained
                                    &&& meldung.wert == wert
                                }
                            },
                            None => *final(self) == *old(self) && (
                            folge matches Folge::UngueltigerPayload { text } && encode_utf8(text@)
                                == payload@),
                        }
                    }
                &&& valid_utf8(payload@) && topic@ == WERT_TOPIC@ && !old(self).initialisiert
                    ==> exists|t: &str, gelesen: Option<V>|
                    {
                        &&& encode_utf8(t@) == payload@
                        &&& #[trigger] call_ensures(lies, (t,), gelesen)
                        &&& match gelesen {
                            Some(wert) => {
                                &&& final(self).stand == wert
                                &&& final(self).letzter_stundenwert == wert
                                &&& final(self).initialisiert
                                &&& folge matches Folge::Wiederhergestellt { wert: w } && w == wert
                            },
                            None => *final(self) == *old(self) && folge is Nichts,
                        }
                    }
                &&& (!valid_utf8(payload@) || (topic@ != SETZE_TOPIC@ && (topic@
                    != WERT_TOPIC@ || old(self).initialisiert))) ==> *final(self)
                    == *old(self) && folge is Nichts
            },
            !(*ereignis is Nachricht) ==> *final(self) == *old(self),
            *ereignis is Verbunden <==> folge is VerbundenMelden,
            *ereignis is AbosBestaetigt <==> folge is FristStarten,
            folge matches Folge::FristStarten { sekunden } ==> sekunden == STARTWERT_FRIST_SEKUNDEN,
            *ereignis is Verbindungsfehler <==> folge is NeuversuchNach,
            folge matches Folge::NeuversuchNach { sekunden } ==> sekunden == NEUVERSUCH_SEKUNDEN,
            *ereignis is Sonstiges ==> folge is Nichts,
    {
        let auftrag = entscheide(self.initialisiert, ereignis);
        proof {
            if let EreignisSicht::Nachricht { topic, payload } = ereignis@ {
                gesetz_ganzer_text(old(self).initialisiert, topic, payload);
                if auftrag@ is Nichts {
                    assert(old(self).nach(
                        Vorgang::Empfang { topic, payload, gelesen: None },
                    ) == *old(self));
                }
            }
        }
        match auftrag {
            Auftrag::Lies { ziel, text } => {
                let gelesen = lies(text.as_str());
                proof {
                    if let EreignisSicht::Nachricht { topic, payload } = ereignis@ {
                        assert(old(self).nach(Vorgang::Empfang { topic, payload, gelesen })
                            == old(self).nach_uebernahme(gelesen));
                    }
                }
                self.uebernehme(ziel, text, gelesen)
            },
            Auftrag::VerbundenMelden => Folge::VerbundenMelden,
            Auftrag::FristStarten { sekunden } => Folge::FristStarten { sekunden },
            Auftrag::NeuversuchNach { sekunden } => Folge::NeuversuchNach { sekunden },
            Auftrag::Nichts => Folge::Nichts,
        }
    }

    /// Ends the time limit for a starting value. If none arrived, the meter goes
    /// on from its own reading, which is the result; otherwise nothing changes.
    pub fn frist_abgelaufen(&mut self) -> (anfang: Option<V>)
        ensures
            *final(self) == old(self).nach(Vorgang::Frist),
            anfang == if old(self).initialisiert {
                None
            } else {
                Some(old(self).stand)
            },
            final(self).stand == old(self).stand,
            final(self).initialisiert,
            final(self).letzter_stundenwert == if old(self).initialisiert {
                old(self).letzter_stundenwert
            } else {
                old(self).stand
            },
    {
        if self.initialisiert {
            None
        } else {
            self.initialisiert = true;
            self.letzter_stundenwert = self.stand;
            Some(self.stand)
        }
    }
}

} // verus!
