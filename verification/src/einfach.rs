//! The plain meter: it counts and can be set, but restores no reading and
//! reports no hourly consumption. The broker keeps none of its messages.

use crate::gesetze::{bringt_stand, gesetz_initialisiert_bleibt};
use crate::konfiguration::{
    gesetz_topics_verschieden, NEUVERSUCH_SEKUNDEN, SETZE_TOPIC, WERT_TOPIC,
};
use crate::mqtt::{
    gleich, lesen, lies, Auftrag, AuftragSicht, Ereignis, EreignisSicht, Qos, Veroeffentlichung,
    VeroeffentlichungSicht, Ziel,
};
use crate::zaehler::{Folge, FolgeSicht, Vorgang, Zaehler};
use vstd::prelude::*;
use vstd::utf8::*;

verus! {

/// A meter that consists of its reading.
#[derive(Debug)]
pub struct EinfacherZaehler<V> {
    pub stand: V,
}

/// A new reading of the plain meter: delivered at least once, not kept.
pub open spec fn einfache_stand_meldung<V>(wert: V) -> VeroeffentlichungSicht<V> {
    VeroeffentlichungSicht {
        topic: WERT_TOPIC@,
        qos: Qos::MindestensEinmal,
        retained: false,
        wert,
    }
}

/// What an event asks of the plain meter.
pub open spec fn einfache_entscheidung(ereignis: EreignisSicht) -> AuftragSicht {
    match ereignis {
        EreignisSicht::Nachricht { topic, payload } => if topic == SETZE_TOPIC@ {
            lesen(Ziel::Setzen, payload)
        } else {
            AuftragSicht::Nichts
        },
        EreignisSicht::Verbunden => AuftragSicht::VerbundenMelden,
        EreignisSicht::Verbindungsfehler => AuftragSicht::NeuversuchNach {
            sekunden: NEUVERSUCH_SEKUNDEN,
        },
        EreignisSicht::AbosBestaetigt => AuftragSicht::Nichts,
        EreignisSicht::Sonstiges => AuftragSicht::Nichts,
    }
}

/// Decides what an event asks of the plain meter.
pub fn entscheide_einfach(ereignis: &Ereignis) -> (auftrag: Auftrag)
    ensures
        auftrag@ == einfache_entscheidung(ereignis@),
        auftrag matches Auftrag::Lies { ziel, text } ==> (*ereignis matches Ereignis::Nachricht {
            topic,
            payload,
        } && encode_utf8(text@) == payload@),
{
    proof {
        if let Ereignis::Nachricht { topic, payload } = ereignis {
            gesetz_einfach_ganzer_text(topic@, payload@);
        }
    }
    match ereignis {
        Ereignis::Nachricht { topic, payload } => {
            if gleich(topic.as_str(), SETZE_TOPIC) {
                lies(Ziel::Setzen, payload)
            } else {
                Auftrag::Nichts
            }
        },
        Ereignis::Verbunden => Auftrag::VerbundenMelden,
        Ereignis::Verbindungsfehler => Auftrag::NeuversuchNach { sekunden: NEUVERSUCH_SEKUNDEN },
        Ereignis::AbosBestaetigt => Auftrag::Nichts,
        Ereignis::Sonstiges => Auftrag::Nichts,
    }
}

/// What setting the plain meter to `gelesen`, the number that `text` was read
/// as, leads to.
pub open spec fn setz_folge<V>(text: Seq<char>, gelesen: Option<V>) -> FolgeSicht<V> {
    match gelesen {
        Some(wert) => FolgeSicht::Gesetzt { meldung: einfache_stand_meldung(wert) },
        None => FolgeSicht::UngueltigerPayload { text },
    }
}

impl<V> EinfacherZaehler<V> {
    /// The plain meter after it has been set to `gelesen`, if that is a number.
    pub open spec fn nach_uebernahme(self, gelesen: Option<V>) -> Self {
        match gelesen {
            Some(wert) => EinfacherZaehler { stand: wert },
            None => self,
        }
    }

    /// The plain meter after `vorgang`.
    pub open spec fn nach(self, vorgang: Vorgang<V>) -> Self {
        match vorgang {
            Vorgang::Impuls { stand } => EinfacherZaehler { stand },
            Vorgang::Empfang { topic, payload, gelesen } => match einfache_entscheidung(
                EreignisSicht::Nachricht { topic, payload },
            ) {
                AuftragSicht::Lies { ziel, text } => self.nach_uebernahme(gelesen),
                _ => self,
            },
            Vorgang::Stunde => self,
            Vorgang::Frist => self,
        }
    }

    /// The plain meter after all of `vorgaenge`, in order.
    pub open spec fn nach_allen(self, vorgaenge: Seq<Vorgang<V>>) -> Self
        decreases vorgaenge.len(),
    {
        if vorgaenge.len() == 0 {
            self
        } else {
            self.nach_allen(vorgaenge.drop_last()).nach(vorgaenge.last())
        }
    }
}

impl<V: Copy> EinfacherZaehler<V> {
    /// A plain meter that reads `anfang`.
    pub fn new(anfang: V) -> (zaehler: Self)
        ensures
            zaehler.stand == anfang,
    {
        EinfacherZaehler { stand: anfang }
    }

    /// Counts a pulse: the reading grows by `schritt`, as `plus` adds, and the
    /// new reading is to be published.
    pub fn impuls<P: Fn(V, V) -> V>(&mut self, schritt: V, plus: P) -> (meldung: Veroeffentlichung<V>)
        requires
            call_requires(plus, (old(self).stand, schritt)),
        ensures
            call_ensures(plus, (old(self).stand, schritt), final(self).stand),
            *final(self) == old(self).nach(Vorgang::Impuls { stand: final(self).stand }),
            meldung@ == einfache_stand_meldung(final(self).stand),
            meldung.topic@ == WERT_TOPIC@,
            meldung.qos is MindestensEinmal,
            !meldung.retained,
            meldung.wert == final(self).stand,
    {
        let stand = plus(self.stand, schritt);
        self.stand = stand;
        Veroeffentlichung {
            topic: WERT_TOPIC,
            qos: Qos::MindestensEinmal,
            retained: false,
            wert: stand,
        }
    }

    /// Sets the meter to the number that `text` was read as, if it is one.
    pub fn setze(&mut self, text: String, gelesen: Option<V>) -> (folge: Folge<V>)
        ensures
            *final(self) == old(self).nach_uebernahme(gelesen),
            folge@ == setz_folge(text@, gelesen),
            match gelesen {
                Some(wert) => {
                    &&& final(self).stand == wert
                    &&& folge matches Folge::Gesetzt { meldung } && {
                        &&& meldung.topic@ == WERT_TOPIC@
                        &&& meldung.qos is MindestensEinmal
                        &&& !meldung.retained
                        &&& meldung.wert == wert
                    }
                },
                None => *final(self) == *old(self) && (folge matches Folge::UngueltigerPayload {
                    text: t,
                } && t@ == text@),
            },
    {
        match gelesen {
            Some(wert) => {
                self.stand = wert;
                Folge::Gesetzt {
                    meldung: Veroeffentlichung {
                        topic: WERT_TOPIC,
                        qos: Qos::MindestensEinmal,
                        retained: false,
                        wert,
                    },
                }
            },
            None => Folge::UngueltigerPayload { text },
        }
    }

    /// Handles an event of the connection. A number in it is read by `lies_zahl`,
    /// which answers `None` for a text that is no number.
    pub fn verarbeite<L: Fn(&str) -> Option<V>>(
        &mut self,
        ereignis: &Ereignis,
        lies_zahl: L,
    ) -> (folge: Folge<V>)
        requires
            forall|text: &str| #[trigger] call_requires(lies_zahl, (text,)),
        ensures
            match einfache_entscheidung(ereignis@) {
                AuftragSicht::Lies { ziel, text } => exists|t: &str, gelesen: Option<V>|
                    {
                        &&& t@ == text
                        &&& #[trigger] call_ensures(lies_zahl, (t,), gelesen)
                        &&& *final(self) == old(self).nach_uebernahme(gelesen)
                        &&& folge@ == setz_folge(text, gelesen)
                    },
                AuftragSicht::VerbundenMelden => *final(self) == *old(self) && folge@
                    == FolgeSicht::<V>::VerbundenMelden,
                AuftragSicht::FristStarten { sekunden } => *final(self) == *old(self) && folge@
                    == (FolgeSicht::<V>::FristStarten { sekunden }),
                AuftragSicht::NeuversuchNach { sekunden } => *final(self) == *old(self) && folge@
                    == (FolgeSicht::<V>::NeuversuchNach { sekunden }),
                AuftragSicht::Nichts => *final(self) == *old(self) && folge@
                    == FolgeSicht::<V>::Nichts,
            },
            ereignis@ matches EreignisSicht::Nachricht { topic, payload } ==> exists|
                gelesen: Option<V>,
            | *final(self) == #[trigger] old(self).nach(
                Vorgang::Empfang { topic, payload, gelesen },
            ),
            *ereignis matches Ereignis::Nachricht { topic, payload } ==> {
                &&& valid_utf8(payload@) && topic@ == SETZE_TOPIC@ ==> exists|
                    t: &str,
                    gelesen: Option<V>,
                |
                    {
                        &&& encode_utf8(t@) == payload@
                        &&& #[trigger] call_ensures(lies_zahl, (t,), gelesen)
                        &&& match gelesen {
                            Some(wert) => {
                                &&& final(self).stand == wert
                                &&& folge matches Folge::Gesetzt { meldung } && {
                                    &&& meldung.topic@ == WERT_TOPIC@
                                    &&& meldung.qos is MindestensEinmal
                                    &&& !meldung.retained
                                    &&& meldung.wert == wert
                                }
                            },
                            None => *final(self) == *old(self) && (
                            folge matches Folge::UngueltigerPayload { text } && encode_utf8(text@)
                                == payload@),
                        }
                    }
                &&& !valid_utf8(payload@) || topic@ != SETZE_TOPIC@ ==> *final(self) == *old(self)
                    && folge is Nichts
            },
            !(*ereignis is Nachricht) ==> *final(self) == *old(self),
            *ereignis is Verbunden <==> folge is VerbundenMelden,
            *ereignis is Verbindungsfehler <==> folge is NeuversuchNach,
            folge matches Folge::NeuversuchNach { sekunden } ==> sekunden == NEUVERSUCH_SEKUNDEN,
            *ereignis is AbosBestaetigt || *ereignis is Sonstiges ==> folge is Nichts,
    {
        let auftrag = entscheide_einfach(ereignis);
        proof {
            if let EreignisSicht::Nachricht { topic, payload } = ereignis@ {
                gesetz_einfach_ganzer_text(topic, payload);
                if auftrag@ is Nichts {
                    assert(old(self).nach(
                        Vorgang::Empfang { topic, payload, gelesen: None },
                    ) == *old(self));
                }
            }
        }
        match auftrag {
            Auftrag::Lies { ziel: _, text } => {
                let gelesen = lies_zahl(text.as_str());
                proof {
                    if let EreignisSicht::Nachricht { topic, payload } = ereignis@ {
                        assert(old(self).nach(Vorgang::Empfang { topic, payload, gelesen })
                            == old(self).nach_uebernahme(gelesen));
                    }
                }
                self.setze(text, gelesen)
            },
            Auftrag::VerbundenMelden => Folge::VerbundenMelden,
            Auftrag::FristStarten { sekunden } => Folge::FristStarten { sekunden },
            Auftrag::NeuversuchNach { sekunden } => Folge::NeuversuchNach { sekunden },
            Auftrag::Nichts => Folge::Nichts,
        }
    }
}

/// The plain meter reads what the full one reads: once that one has a starting
/// value, the same run takes both from the same reading to the same reading.
pub proof fn gesetz_gleicher_stand<V>(
    e: EinfacherZaehler<V>,
    z: Zaehler<V>,
    vorgaenge: Seq<Vorgang<V>>,
)
    requires
        z.initialisiert,
        e.stand == z.stand,
    ensures
        e.nach_allen(vorgaenge).stand == z.nach_allen(vorgaenge).stand,
    decreases vorgaenge.len(),
{
    if vorgaenge.len() > 0 {
        gesetz_topics_verschieden();
        gesetz_gleicher_stand(e, z, vorgaenge.drop_last());
        gesetz_initialisiert_bleibt(z, vorgaenge.drop_last());
    }
}

/// A number is read from a message for setting as a whole: the text encodes to
/// the very bytes that arrived. Nothing else is read.
pub proof fn gesetz_einfach_ganzer_text(topic: Seq<char>, payload: Seq<u8>)
    ensures
        ({
            let auftrag = einfache_entscheidung(EreignisSicht::Nachricht { topic, payload });
            &&& valid_utf8(payload) && topic == SETZE_TOPIC@ ==> (auftrag matches
                AuftragSicht::Lies { ziel, text } && ziel is Setzen && encode_utf8(text)
                == payload)
            &&& !valid_utf8(payload) || topic != SETZE_TOPIC@ ==> auftrag is Nichts
        }),
{
    if valid_utf8(payload) {
        decode_utf8_encode_utf8(payload);
    }
}

/// What `entscheide_einfach` orders, said of its argument and its result
/// themselves.
pub proof fn gesetz_entscheide_einfach(ereignis: &Ereignis, auftrag: Auftrag)
    requires
        call_ensures(entscheide_einfach, (ereignis,), auftrag),
    ensures
        *ereignis matches Ereignis::Nachricht { topic, payload } ==> {
            &&& valid_utf8(payload@) && topic@ == SETZE_TOPIC@ ==> (
            auftrag matches Auftrag::Lies { ziel, text } && ziel is Setzen && encode_utf8(text@)
                == payload@)
            &&& !valid_utf8(payload@) || topic@ != SETZE_TOPIC@
                ==> auftrag is Nichts
        },
        *ereignis is Verbunden <==> auftrag is VerbundenMelden,
        *ereignis is Verbindungsfehler <==> auftrag is NeuversuchNach,
        auftrag matches Auftrag::NeuversuchNach { sekunden } ==> sekunden == NEUVERSUCH_SEKUNDEN,
        *ereignis is AbosBestaetigt || *ereignis is Sonstiges ==> auftrag is Nichts,
{
    if let Ereignis::Nachricht { topic, payload } = *ereignis {
        gesetz_einfach_ganzer_text(topic@, payload@);
    }
}

/// Every number that the plain meter is set to is confirmed by publishing it,
/// whatever text it was read from; a text that is no number is reported whole.
pub proof fn gesetz_setzen_wird_bestaetigt<V>(text: Seq<char>, gelesen: Option<V>)
    ensures
        gelesen matches Some(wert) ==> (setz_folge(text, gelesen) matches FolgeSicht::Gesetzt {
            meldung,
        } && {
            &&& meldung.topic == WERT_TOPIC@
            &&& meldung.qos is MindestensEinmal
            &&& !meldung.retained
            &&& meldung.wert == wert
        }),
        gelesen is None ==> (setz_folge(text, gelesen) matches FolgeSicht::UngueltigerPayload {
            text: t,
        } && t == text),
{
}

/// A new reading of the plain meter goes out with its number unchanged, and is
/// not kept.
pub proof fn gesetz_einfache_meldung<V>(wert: V)
    ensures
        einfache_stand_meldung(wert).topic == WERT_TOPIC@,
        einfache_stand_meldung(wert).qos is MindestensEinmal,
        !einfache_stand_meldung(wert).retained,
        einfache_stand_meldung(wert).wert == wert,
{
}

/// The reading of the plain meter changes by a pulse or by a number on the topic
/// for setting, to just that number, and by nothing else.
pub proof fn gesetz_einfache_wirkung<V>(e: EinfacherZaehler<V>, vorgang: Vorgang<V>)
    ensures
        vorgang matches Vorgang::Impuls { stand } ==> e.nach(vorgang).stand == stand,
        vorgang matches Vorgang::Empfang { topic, payload, gelesen } ==> {
            &&& topic == SETZE_TOPIC@ && valid_utf8(payload) ==> (
            gelesen matches Some(wert) ==> e.nach(vorgang).stand == wert)
            &&& topic != SETZE_TOPIC@ || !valid_utf8(payload) || gelesen is None
                ==> e.nach(vorgang) == e
        },
        vorgang is Stunde || vorgang is Frist ==> e.nach(vorgang) == e,
{
}

/// The plain meter takes no reading from the broker.
pub proof fn gesetz_kein_startwert<V>(e: EinfacherZaehler<V>, vorgang: Vorgang<V>)
    requires
        bringt_stand(vorgang),
    ensures
        e.nach(vorgang) == e,
{
    gesetz_topics_verschieden();
}

} // verus!
