use gaszaehler::konfiguration::{DIFFERENZ_TOPIC, DIFFERENZ_TOPIC_KWH, SETZE_TOPIC, WERT_TOPIC};
use gaszaehler::mqtt::{entscheide, Auftrag, Ereignis, Ziel};

fn nachricht(topic: &str, payload: &[u8]) -> Ereignis {
    Ereignis::Nachricht { topic: topic.to_string(), payload: payload.to_vec() }
}

fn gelesen(initialisiert: bool, topic: &str, payload: &[u8]) -> Option<(Ziel, String)> {
    match entscheide(initialisiert, &nachricht(topic, payload)) {
        Auftrag::Lies { ziel, text } => Some((ziel, text)),
        Auftrag::Nichts => None,
        _ => panic!("eine Nachricht wird gelesen oder uebergangen"),
    }
}

#[test]
fn stand_vom_broker_ist_startwert() {
    assert_eq!(gelesen(false, WERT_TOPIC, b"12.34"), Some((Ziel::Startwert, "12.34".to_string())));
}

#[test]
fn eigener_stand_wird_uebergangen() {
    assert_eq!(gelesen(true, WERT_TOPIC, b"12.34"), None);
}

#[test]
fn setzen_gilt_immer() {
    let erwartet = Some((Ziel::Setzen, "7".to_string()));
    assert_eq!(gelesen(false, SETZE_TOPIC, b"7"), erwartet);
    assert_eq!(gelesen(true, SETZE_TOPIC, b"7"), erwartet);
}

#[test]
fn fremde_topics_werden_uebergangen() {
    assert_eq!(gelesen(false, DIFFERENZ_TOPIC, b"1"), None);
    assert_eq!(gelesen(false, "haus/gaszaehler", b"1"), None);
    assert_eq!(gelesen(true, "", b"1"), None);
}

#[test]
fn ungueltiges_utf8_wird_uebergangen() {
    assert_eq!(gelesen(false, WERT_TOPIC, &[0xff, 0x31]), None);
    assert_eq!(gelesen(true, SETZE_TOPIC, &[0x31, 0xc3]), None);
    // an overlong encoding and a surrogate
    assert_eq!(gelesen(true, SETZE_TOPIC, &[0xc0, 0xb1]), None);
    assert_eq!(gelesen(true, SETZE_TOPIC, &[0xed, 0xa0, 0x80]), None);
}

#[test]
fn gueltiges_utf8_wird_unveraendert_gelesen() {
    let text = "Zählerstand 1,5 m³ \u{1F525}";
    assert_eq!(gelesen(true, SETZE_TOPIC, text.as_bytes()), Some((Ziel::Setzen, text.to_string())));
    assert_eq!(gelesen(true, SETZE_TOPIC, b""), Some((Ziel::Setzen, String::new())));
}

#[test]
fn ereignisse_der_verbindung() {
    for initialisiert in [false, true] {
        assert!(matches!(
            entscheide(initialisiert, &Ereignis::Verbunden),
            Auftrag::VerbundenMelden
        ));
        assert!(matches!(
            entscheide(initialisiert, &Ereignis::AbosBestaetigt),
            Auftrag::FristStarten { sekunden: 2 }
        ));
        assert!(matches!(
            entscheide(initialisiert, &Ereignis::Verbindungsfehler),
            Auftrag::NeuversuchNach { sekunden: 1 }
        ));
        assert!(matches!(entscheide(initialisiert, &Ereignis::Sonstiges), Auftrag::Nichts));
    }
}

#[test]
fn topics_sind_verschieden() {
    assert_eq!(WERT_TOPIC, "haus/gaszaehler/stand");
    assert_eq!(SETZE_TOPIC, "haus/gaszaehler/set_stand");
    assert_eq!(DIFFERENZ_TOPIC, "haus/gaszaehler/verbrauch");
    assert_eq!(DIFFERENZ_TOPIC_KWH, "haus/gaszaehler/verbrauch-kwh");
}
