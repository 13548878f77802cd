use gaszaehler::einfach::{entscheide_einfach, EinfacherZaehler};
use gaszaehler::konfiguration::{SETZE_TOPIC, WERT_TOPIC};
use gaszaehler::mqtt::{Auftrag, Ereignis, Qos, Ziel};
use gaszaehler::zaehler::{Folge, Zaehler};

fn plus(a: f64, b: f64) -> f64 {
    a + b
}

fn lies(text: &str) -> Option<f64> {
    text.parse::<f64>().ok()
}

fn nachricht(topic: &str, payload: &[u8]) -> Ereignis {
    Ereignis::Nachricht { topic: topic.to_string(), payload: payload.to_vec() }
}

#[test]
fn einfacher_impuls_wird_nicht_behalten() {
    let mut e = EinfacherZaehler::new(0.0);
    let m = e.impuls(0.01, plus);
    assert_eq!(m.topic, "haus/gaszaehler/stand");
    assert_eq!(m.qos, Qos::MindestensEinmal);
    assert!(!m.retained);
    assert_eq!(m.wert, 0.01);
    assert_eq!(e.stand, 0.01);
}

#[test]
fn einfaches_setzen_bestaetigt_den_wert() {
    let mut e = EinfacherZaehler::new(1.0);
    match e.verarbeite(&nachricht(SETZE_TOPIC, b"42.5"), lies) {
        Folge::Gesetzt { meldung } => {
            assert_eq!(meldung.topic, "haus/gaszaehler/stand");
            assert_eq!(meldung.qos, Qos::MindestensEinmal);
            assert!(!meldung.retained);
            assert_eq!(meldung.wert, 42.5);
        }
        _ => panic!(),
    }
    assert_eq!(e.stand, 42.5);
}

#[test]
fn einfaches_setzen_mit_ungueltigem_payload() {
    let mut e = EinfacherZaehler::new(1.0);
    match e.verarbeite(&nachricht(SETZE_TOPIC, b"viel"), lies) {
        Folge::UngueltigerPayload { text } => assert_eq!(text, "viel"),
        _ => panic!(),
    }
    assert!(matches!(e.verarbeite(&nachricht(SETZE_TOPIC, &[0x80]), lies), Folge::Nichts));
    assert_eq!(e.stand, 1.0);
}

#[test]
fn einfacher_zaehler_kennt_keinen_startwert() {
    let mut e = EinfacherZaehler::new(1.0);
    assert!(matches!(e.verarbeite(&nachricht(WERT_TOPIC, b"9"), lies), Folge::Nichts));
    assert_eq!(e.stand, 1.0);
}

#[test]
fn einfache_entscheidungen() {
    assert!(matches!(
        entscheide_einfach(&nachricht(SETZE_TOPIC, b"1")),
        Auftrag::Lies { ziel: Ziel::Setzen, .. }
    ));
    assert!(matches!(entscheide_einfach(&nachricht(WERT_TOPIC, b"1")), Auftrag::Nichts));
    assert!(matches!(entscheide_einfach(&Ereignis::Verbunden), Auftrag::VerbundenMelden));
    assert!(matches!(entscheide_einfach(&Ereignis::AbosBestaetigt), Auftrag::Nichts));
    assert!(matches!(
        entscheide_einfach(&Ereignis::Verbindungsfehler),
        Auftrag::NeuversuchNach { sekunden: 1 }
    ));
    assert!(matches!(entscheide_einfach(&Ereignis::Sonstiges), Auftrag::Nichts));
}

#[test]
fn beide_zaehler_zeigen_denselben_stand() {
    let mut e = EinfacherZaehler::new(2.0);
    let mut z = Zaehler { stand: 2.0, letzter_stundenwert: 0.0, initialisiert: true };
    for payload in [&b"5"[..], b"x", b"7.75"] {
        e.impuls(0.01, plus);
        z.impuls(0.01, plus);
        e.verarbeite(&nachricht(SETZE_TOPIC, payload), lies);
        z.verarbeite(&nachricht(SETZE_TOPIC, payload), lies);
        e.verarbeite(&nachricht(WERT_TOPIC, b"1"), lies);
        z.verarbeite(&nachricht(WERT_TOPIC, b"1"), lies);
        assert_eq!(e.stand, z.stand);
    }
    assert_eq!(e.stand, 7.75);
}
