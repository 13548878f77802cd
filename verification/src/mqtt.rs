//! What comes in from the broker and what goes out to it, as plain values.

use crate::konfiguration::{
    gesetz_topics_verschieden, DIFFERENZ_TOPIC, DIFFERENZ_TOPIC_KWH, NEUVERSUCH_SEKUNDEN, SETZE_TOPIC,
    STARTWERT_FRIST_SEKUNDEN, WERT_TOPIC,
};
use vstd::prelude::*;
use vstd::string::*;
use vstd::utf8::*;

verus! {

/// The delivery guarantee that a message is sent with.
#[derive(Clone, Copy, Debug, PartialEq, Eq, Structural)]
pub enum Qos {
    HoechstensEinmal,
    MindestensEinmal,
    GenauEinmal,
}

/// A number to be published; its text has two decimals.
pub struct Veroeffentlichung<V> {
    pub topic: &'static str,
    pub qos: Qos,
    /// Whether the broker keeps the message for later subscribers.
    pub retained: bool,
    pub wert: V,
}

/// A publication with its topic as a sequence of characters.
pub struct VeroeffentlichungSicht<V> {
    pub topic: Seq<char>,
    pub qos: Qos,
    pub retained: bool,
    pub wert: V,
}

impl<V> View for Veroeffentlichung<V> {
    type V = VeroeffentlichungSicht<V>;

    open spec fn view(&self) -> VeroeffentlichungSicht<V> {
        VeroeffentlichungSicht {
            topic: self.topic@,
            qos: self.qos,
            retained: self.retained,
            wert: self.wert,
        }
    }
}

/// A new meter reading: delivered at least once and kept by the broker.
pub open spec fn stand_meldung<V>(wert: V) -> VeroeffentlichungSicht<V> {
    VeroeffentlichungSicht {
        topic: WERT_TOPIC@,
        qos: Qos::MindestensEinmal,
        retained: true,
        wert,
    }
}

/// The consumption of an hour in cubic metres: delivered at least once, not kept.
pub open spec fn verbrauch_meldung<V>(wert: V) -> VeroeffentlichungSicht<V> {
    VeroeffentlichungSicht {
        topic: DIFFERENZ_TOPIC@,
        qos: Qos::MindestensEinmal,
        retained: false,
        wert,
    }
}

/// The consumption of an hour in kilowatt hours: delivered at least once, not kept.
pub open spec fn verbrauch_kwh_meldung<V>(wert: V) -> VeroeffentlichungSicht<V> {
    VeroeffentlichungSicht {
        topic: DIFFERENZ_TOPIC_KWH@,
        qos: Qos::MindestensEinmal,
        retained: false,
        wert,
    }
}

/// An event of the MQTT connection.
pub enum Ereignis {
    /// A message arrived.
    Nachricht { topic: String, payload: Vec<u8> },
    /// The broker accepted the connection.
    Verbunden,
    /// The broker confirmed the subscriptions.
    AbosBestaetigt,
    /// The connection failed.
    Verbindungsfehler,
    /// Anything else, such as keep-alive traffic.
    Sonstiges,
}

/// An event, its message as sequences.
pub enum EreignisSicht {
    Nachricht { topic: Seq<char>, payload: Seq<u8> },
    Verbunden,
    AbosBestaetigt,
    Verbindungsfehler,
    Sonstiges,
}

impl View for Ereignis {
    type V = EreignisSicht;

    open spec fn view(&self) -> EreignisSicht {
        match self {
            Ereignis::Nachricht { topic, payload } => EreignisSicht::Nachricht {
                topic: topic@,
                payload: payload@,
            },
            Ereignis::Verbunden => EreignisSicht::Verbunden,
            Ereignis::AbosBestaetigt => EreignisSicht::AbosBestaetigt,
            Ereignis::Verbindungsfehler => EreignisSicht::Verbindungsfehler,
            Ereignis::Sonstiges => EreignisSicht::Sonstiges,
        }
    }
}

/// What a number in a message is for.
#[derive(Clone, Copy, Debug, PartialEq, Eq, Structural)]
pub enum Ziel {
    /// It restores the reading of an earlier run.
    Startwert,
    /// It replaces the reading.
    Setzen,
}

/// What an event asks for.
pub enum Auftrag {
    /// Read `text` as a number and adopt it.
    Lies { ziel: Ziel, text: String },
    /// Note that the connection stands.
    VerbundenMelden,
    /// Allow the retained reading this many seconds to arrive.
    FristStarten { sekunden: u64 },
    /// Pause for this many seconds before the next attempt.
    NeuversuchNach { sekunden: u64 },
    /// Nothing.
    Nichts,
}

/// An order, its text as a sequence of characters.
pub enum AuftragSicht {
    Lies { ziel: Ziel, text: Seq<char> },
    VerbundenMelden,
    FristStarten { sekunden: u64 },
    NeuversuchNach { sekunden: u64 },
    Nichts,
}

impl View for Auftrag {
    type V = AuftragSicht;

    open spec fn view(&self) -> AuftragSicht {
        match self {
            Auftrag::Lies { ziel, text } => AuftragSicht::Lies { ziel: *ziel, text: text@ },
            Auftrag::VerbundenMelden => AuftragSicht::VerbundenMelden,
            Auftrag::FristStarten { sekunden } => AuftragSicht::FristStarten {
                sekunden: *sekunden,
            },
            Auftrag::NeuversuchNach { sekunden } => AuftragSicht::NeuversuchNach {
                sekunden: *sekunden,
            },
            Auftrag::Nichts => AuftragSicht::Nichts,
        }
    }
}

/// The number in `payload` is to be read for `ziel`, provided that it is text.
pub open spec fn lesen(ziel: Ziel, payload: Seq<u8>) -> AuftragSicht {
    if valid_utf8(payload) {
        AuftragSicht::Lies { ziel, text: decode_utf8(payload) }
    } else {
        AuftragSicht::Nichts
    }
}

/// What an event asks for. A reading from the broker is taken only as long as
/// the meter has none (`initialisiert` is false); a number to be set is always
/// taken.
pub open spec fn entscheidung(initialisiert: bool, ereignis: EreignisSicht) -> AuftragSicht {
    match ereignis {
        EreignisSicht::Nachricht { topic, payload } => if topic == WERT_TOPIC@
            && !initialisiert {
            lesen(Ziel::Startwert, payload)
        } else if topic == SETZE_TOPIC@ {
            lesen(Ziel::Setzen, payload)
        } else {
            AuftragSicht::Nichts
        },
        EreignisSicht::Verbunden => AuftragSicht::VerbundenMelden,
        EreignisSicht::AbosBestaetigt => AuftragSicht::FristStarten {
            sekunden: STARTWERT_FRIST_SEKUNDEN,
        },
        EreignisSicht::Verbindungsfehler => AuftragSicht::NeuversuchNach {
            sekunden: NEUVERSUCH_SEKUNDEN,
        },
        EreignisSicht::Sonstiges => AuftragSicht::Nichts,
    }
}

/// The error of `std::str::from_utf8`.
#[verifier::external_type_specification]
#[verifier::external_body]
pub struct ExUtf8Error(core::str::Utf8Error);

/// `std::str::from_utf8` accepts exactly the byte strings that are valid UTF-8,
/// and hands them out unchanged as a string.
pub assume_specification[ core::str::from_utf8 ](v: &[u8]) -> (ergebnis: Result<
    &str,
    core::str::Utf8Error,
>)
    ensures
        ergebnis is Ok <==> valid_utf8(v@),
        ergebnis matches Ok(text) ==> text.spec_bytes() == v@,
;

/// Whether two strings hold the same characters.
pub(crate) fn gleich(a: &str, b: &str) -> (ergebnis: bool)
    ensures
        ergebnis == (a@ == b@),
{
    a.to_owned() == b.to_owned()
}

/// Orders the number in `payload` to be read for `ziel`, if `payload` is text.
pub(crate) fn lies(ziel: Ziel, payload: &Vec<u8>) -> (auftrag: Auftrag)
    ensures
        auftrag@ == lesen(ziel, payload@),
{
    match core::str::from_utf8(payload.as_slice()) {
        Ok(text) => {
            proof {
                encode_utf8_decode_utf8(text@);
            }
            Auftrag::Lies { ziel, text: text.to_owned() }
        },
        Err(_) => Auftrag::Nichts,
    }
}

/// Decides what an event asks for.
pub fn entscheide(initialisiert: bool, ereignis: &Ereignis) -> (auftrag: Auftrag)
    ensures
        auftrag@ == entscheidung(initialisiert, ereignis@),
        auftrag matches Auftrag::Lies { ziel, text } ==> (*ereignis matches Ereignis::Nachricht {
            topic,
            payload,
        } && encode_utf8(text@) == payload@),
{
    proof {
        if let Ereignis::Nachricht { topic, payload } = ereignis {
            gesetz_ganzer_text(initialisiert, topic@, payload@);
        }
    }
    match ereignis {
        Ereignis::Nachricht { topic, payload } => {
            if gleich(topic.as_str(), WERT_TOPIC) && !initialisiert {
                lies(Ziel::Startwert, payload)
            } else if gleich(topic.as_str(), SETZE_TOPIC) {
                lies(Ziel::Setzen, payload)
            } else {
                Auftrag::Nichts
            }
        },
        Ereignis::Verbunden => Auftrag::VerbundenMelden,
        Ereignis::AbosBestaetigt => Auftrag::FristStarten { sekunden: STARTWERT_FRIST_SEKUNDEN },
        Ereignis::Verbindungsfehler => Auftrag::NeuversuchNach { sekunden: NEUVERSUCH_SEKUNDEN },
        Ereignis::Sonstiges => Auftrag::Nichts,
    }
}

/// A message is read as a whole or not at all: the text to be read encodes to
/// the very bytes that arrived. One on the topic of the reading is read as a
/// starting value as long as there is none, one on the topic for setting always,
/// and no other; bytes that are no text are never read.
pub proof fn gesetz_ganzer_text(initialisiert: bool, topic: Seq<char>, payload: Seq<u8>)
    ensures
        ({
            let auftrag = entscheidung(
                initialisiert,
                EreignisSicht::Nachricht { topic, payload },
            );
            &&& valid_utf8(payload) && topic == WERT_TOPIC@ && !initialisiert ==> (
            auftrag matches AuftragSicht::Lies { ziel, text } && ziel is Startwert && encode_utf8(
                text,
            ) == payload)
            &&& valid_utf8(payload) && topic == SETZE_TOPIC@ ==> (auftrag matches
                AuftragSicht::Lies { ziel, text } && ziel is Setzen && encode_utf8(text)
                == payload)
            &&& !valid_utf8(payload) ==> auftrag is Nichts
            &&& topic == WERT_TOPIC@ && initialisiert ==> auftrag is Nichts
            &&& topic != WERT_TOPIC@ && topic != SETZE_TOPIC@
                ==> auftrag is Nichts
        }),
{
    gesetz_topics_verschieden();
    if valid_utf8(payload) {
        decode_utf8_encode_utf8(payload);
    }
}

/// What `entscheide` orders, said of its arguments and its result themselves: a
/// text is to be read exactly if a message on one of the two topics asks for
/// it, and then it is the whole message; each other event has its own order.
pub proof fn gesetz_entscheide(initialisiert: bool, ereignis: &Ereignis, auftrag: Auftrag)
    requires
        call_ensures(entscheide, (initialisiert, ereignis), auftrag),
    ensures
        *ereignis matches Ereignis::Nachricht { topic, payload } ==> {
            &&& valid_utf8(payload@) && topic@ == WERT_TOPIC@ && !initialisiert ==> (
            auftrag matches Auftrag::Lies { ziel, text } && ziel is Startwert && encode_utf8(text@)
                == payload@)
            &&& valid_utf8(payload@) && topic@ == SETZE_TOPIC@ ==> (
            auftrag matches Auftrag::Lies { ziel, text } && ziel is Setzen && encode_utf8(text@)
                == payload@)
            &&& !valid_utf8(payload@) ==> auftrag is Nichts
            &&& topic@ == WERT_TOPIC@ && initialisiert ==> auftrag is Nichts
            &&& topic@ != WERT_TOPIC@ && topic@ != SETZE_TOPIC@
                ==> auftrag is Nichts
        },
        *ereignis is Verbunden <==> auftrag is VerbundenMelden,
        *ereignis is AbosBestaetigt <==> auftrag is FristStarten,
        auftrag matches Auftrag::FristStarten { sekunden } ==> sekunden == STARTWERT_FRIST_SEKUNDEN,
        *ereignis is Verbindungsfehler <==> auftrag is NeuversuchNach,
        auftrag matches Auftrag::NeuversuchNach { sekunden } ==> sekunden == NEUVERSUCH_SEKUNDEN,
        *ereignis is Sonstiges ==> auftrag is Nichts,
{
    if let Ereignis::Nachricht { topic, payload } = *ereignis {
        gesetz_ganzer_text(initialisiert, topic@, payload@);
    }
}

/// Two messages with different texts are never read alike: from what is to be
/// read, the message can be told.
pub proof fn gesetz_texte_unterscheidbar(ziel: Ziel, p: Seq<u8>, q: Seq<u8>)
    requires
        valid_utf8(p),
        valid_utf8(q),
        lesen(ziel, p) == lesen(ziel, q),
    ensures
        p == q,
        lesen(ziel, p) matches AuftragSicht::Lies { ziel: z, text } && z == ziel && encode_utf8(
            text,
        ) == p,
{
    decode_utf8_encode_utf8(p);
    decode_utf8_encode_utf8(q);
}

/// An event that is no message asks for the same whether or not a starting
/// value is known: time for a retained reading after the subscriptions, a pause
/// after a failure.
pub proof fn gesetz_verbindung(initialisiert: bool)
    ensures
        entscheidung(initialisiert, EreignisSicht::Verbunden) is VerbundenMelden,
        entscheidung(initialisiert, EreignisSicht::AbosBestaetigt) == (AuftragSicht::FristStarten {
            sekunden: STARTWERT_FRIST_SEKUNDEN,
        }),
        entscheidung(initialisiert, EreignisSicht::Verbindungsfehler) == (
        AuftragSicht::NeuversuchNach { sekunden: NEUVERSUCH_SEKUNDEN }),
        entscheidung(initialisiert, EreignisSicht::Sonstiges) is Nichts,
{
}

/// What is published, and how: the reading is kept by the broker, the
/// consumption is not; everything is delivered at least once, with its number
/// unchanged.
pub proof fn gesetz_meldungen<V>(wert: V)
    ensures
        stand_meldung(wert).topic == WERT_TOPIC@,
        stand_meldung(wert).retained,
        stand_meldung(wert).qos is MindestensEinmal,
        stand_meldung(wert).wert == wert,
        verbrauch_meldung(wert).topic == DIFFERENZ_TOPIC@,
        !verbrauch_meldung(wert).retained,
        verbrauch_meldung(wert).qos is MindestensEinmal,
        verbrauch_meldung(wert).wert == wert,
        verbrauch_kwh_meldung(wert).topic == DIFFERENZ_TOPIC_KWH@,
        !verbrauch_kwh_meldung(wert).retained,
        verbrauch_kwh_meldung(wert).qos is MindestensEinmal,
        verbrauch_kwh_meldung(wert).wert == wert,
{
}

/// The views leave nothing out and change nothing: publications, events and
/// orders with the same view agree in every field.
pub proof fn gesetz_sichten_treu<V>(
    v: Veroeffentlichung<V>,
    w: Veroeffentlichung<V>,
    e: Ereignis,
    f: Ereignis,
    a: Auftrag,
    b: Auftrag,
)
    ensures
        v@ == w@ <==> v.topic@ == w.topic@ && v.qos == w.qos && v.retained == w.retained && v.wert
            == w.wert,
        v@.topic == v.topic@ && v@.qos == v.qos && v@.retained == v.retained && v@.wert == v.wert,
        e@ == f@ <==> match (e, f) {
            (
                Ereignis::Nachricht { topic, payload },
                Ereignis::Nachricht { topic: topic2, payload: payload2 },
            ) => topic@ == topic2@ && payload@ == payload2@,
            (Ereignis::Verbunden, Ereignis::Verbunden) => true,
            (Ereignis::AbosBestaetigt, Ereignis::AbosBestaetigt) => true,
            (Ereignis::Verbindungsfehler, Ereignis::Verbindungsfehler) => true,
            (Ereignis::Sonstiges, Ereignis::Sonstiges) => true,
            _ => false,
        },
        e matches Ereignis::Nachricht { topic, payload } ==> e@ == (EreignisSicht::Nachricht {
            topic: topic@,
            payload: payload@,
        }),
        a@ == b@ <==> match (a, b) {
            (Auftrag::Lies { ziel, text }, Auftrag::Lies { ziel: ziel2, text: text2 }) => ziel
                == ziel2 && text@ == text2@,
            (Auftrag::VerbundenMelden, Auftrag::VerbundenMelden) => true,
            (
                Auftrag::FristStarten { sekunden },
                Auftrag::FristStarten { sekunden: sekunden2 },
            ) => sekunden == sekunden2,
            (
                Auftrag::NeuversuchNach { sekunden },
                Auftrag::NeuversuchNach { sekunden: sekunden2 },
            ) => sekunden == sekunden2,
            (Auftrag::Nichts, Auftrag::Nichts) => true,
            _ => false,
        },
        a matches Auftrag::Lies { ziel, text } ==> a@ == (AuftragSicht::Lies { ziel, text: text@ }),
{
}

} // verus!
