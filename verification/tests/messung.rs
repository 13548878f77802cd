use gaszaehler::konfiguration::{SETZE_TOPIC, WERT_TOPIC};
use gaszaehler::mqtt::{Ereignis, Qos, Veroeffentlichung, Ziel};
use gaszaehler::zaehler::{Folge, Tarif, Zaehler};

fn plus(a: f64, b: f64) -> f64 {
    a + b
}

fn minus(a: f64, b: f64) -> f64 {
    a - b
}

fn mal(a: f64, b: f64) -> f64 {
    a * b
}

fn lies(text: &str) -> Option<f64> {
    text.parse::<f64>().ok()
}

fn tarif() -> Tarif<f64> {
    Tarif { brennwert: 11.50, zustandswert: 0.9643 }
}

fn nachricht(topic: &str, payload: &[u8]) -> Ereignis {
    Ereignis::Nachricht { topic: topic.to_string(), payload: payload.to_vec() }
}

fn pruefe(v: &Veroeffentlichung<f64>, topic: &str, retained: bool, wert: f64) {
    assert_eq!(v.topic, topic);
    assert_eq!(v.qos, Qos::MindestensEinmal);
    assert_eq!(v.retained, retained);
    assert_eq!(v.wert, wert);
}

fn zustand(z: &Zaehler<f64>) -> (f64, f64, bool) {
    (z.stand, z.letzter_stundenwert, z.initialisiert)
}

#[test]
fn neuer_zaehler_kennt_keinen_startwert() {
    assert_eq!(zustand(&Zaehler::new(0.0)), (0.0, 0.0, false));
}

#[test]
fn impuls_erhoeht_und_meldet_den_stand() {
    let mut z = Zaehler::new(0.0);
    pruefe(&z.impuls(0.01, plus), "haus/gaszaehler/stand", true, 0.01);
    pruefe(&z.impuls(0.01, plus), "haus/gaszaehler/stand", true, 0.02);
    assert_eq!(zustand(&z), (0.02, 0.0, false));
}

#[test]
fn stundenbericht_meldet_volumen_und_energie() {
    let mut z = Zaehler { stand: 12.5, letzter_stundenwert: 12.0, initialisiert: true };
    let b = z.stundenbericht(tarif(), minus, mal);
    assert_eq!(b.aktueller_wert, 12.5);
    assert_eq!(b.letzter_wert, 12.0);
    pruefe(&b.verbrauch, "haus/gaszaehler/verbrauch", false, 0.5);
    pruefe(&b.verbrauch_kwh, "haus/gaszaehler/verbrauch-kwh", false, 0.5 * 11.50 * 0.9643);
    assert_eq!(format!("{:.2}", b.verbrauch_kwh.wert), "5.54");
    assert_eq!(zustand(&z), (12.5, 12.5, true));
}

#[test]
fn energie_wird_in_fester_reihenfolge_berechnet() {
    let mut z: Zaehler<i64> = Zaehler { stand: 9, letzter_stundenwert: 4, initialisiert: true };
    let t = Tarif { brennwert: 3, zustandswert: 7 };
    let b = z.stundenbericht(t, |a, b| 10 * a - b, |a, b| 100 * a + b);
    assert_eq!(b.verbrauch.wert, 86);
    assert_eq!(b.verbrauch_kwh.wert, 860_307);
}

#[test]
fn startwert_wird_wiederhergestellt() {
    let mut z = Zaehler::new(0.0);
    match z.verarbeite(&nachricht(WERT_TOPIC, b"1234.56"), lies) {
        Folge::Wiederhergestellt { wert } => assert_eq!(wert, 1234.56),
        _ => panic!(),
    }
    assert_eq!(zustand(&z), (1234.56, 1234.56, true));
}

#[test]
fn unlesbarer_startwert_wird_uebergangen() {
    let mut z = Zaehler::new(0.0);
    assert!(matches!(z.verarbeite(&nachricht(WERT_TOPIC, b"abc"), lies), Folge::Nichts));
    assert!(matches!(z.verarbeite(&nachricht(WERT_TOPIC, &[0xff]), lies), Folge::Nichts));
    assert_eq!(zustand(&z), (0.0, 0.0, false));
}

#[test]
fn startwert_nur_einmal() {
    let mut z = Zaehler::new(0.0);
    z.verarbeite(&nachricht(WERT_TOPIC, b"10"), lies);
    z.impuls(0.01, plus);
    assert!(matches!(z.verarbeite(&nachricht(WERT_TOPIC, b"99"), lies), Folge::Nichts));
    assert_eq!(zustand(&z), (10.0 + 0.01, 10.0, true));
}

#[test]
fn setzen_setzt_den_verbrauch_zurueck() {
    let mut z = Zaehler { stand: 5.0, letzter_stundenwert: 4.0, initialisiert: true };
    match z.verarbeite(&nachricht(SETZE_TOPIC, b"100.5"), lies) {
        Folge::Gesetzt { meldung } => pruefe(&meldung, "haus/gaszaehler/stand", true, 100.5),
        _ => panic!(),
    }
    assert_eq!(zustand(&z), (100.5, 100.5, true));
    assert_eq!(z.stundenbericht(tarif(), minus, mal).verbrauch.wert, 0.0);
}

#[test]
fn setzen_gilt_als_startwert() {
    let mut z = Zaehler::new(0.0);
    z.verarbeite(&nachricht(SETZE_TOPIC, b"3"), lies);
    assert_eq!(zustand(&z), (3.0, 3.0, true));
    assert!(matches!(z.verarbeite(&nachricht(WERT_TOPIC, b"8"), lies), Folge::Nichts));
    assert_eq!(zustand(&z), (3.0, 3.0, true));
}

#[test]
fn ungueltiger_payload_beim_setzen() {
    let mut z = Zaehler { stand: 5.0, letzter_stundenwert: 4.0, initialisiert: true };
    match z.verarbeite(&nachricht(SETZE_TOPIC, b"1,5"), lies) {
        Folge::UngueltigerPayload { text } => assert_eq!(text, "1,5"),
        _ => panic!(),
    }
    assert!(matches!(z.verarbeite(&nachricht(SETZE_TOPIC, &[0xff]), lies), Folge::Nichts));
    assert!(matches!(z.verarbeite(&nachricht("haus/x", b"1"), lies), Folge::Nichts));
    assert_eq!(zustand(&z), (5.0, 4.0, true));
}

#[test]
fn uebernehmen_je_nach_ziel() {
    let mut z = Zaehler::new(0i64);
    assert!(matches!(z.uebernehme(Ziel::Startwert, "x".to_string(), None), Folge::Nichts));
    assert!(!z.initialisiert);
    assert!(matches!(
        z.uebernehme(Ziel::Startwert, "4".to_string(), Some(4)),
        Folge::Wiederhergestellt { wert: 4 }
    ));
    assert_eq!(z.stand, 4);
    match z.uebernehme(Ziel::Setzen, "x".to_string(), None) {
        Folge::UngueltigerPayload { text } => assert_eq!(text, "x"),
        _ => panic!(),
    }
    match z.uebernehme(Ziel::Setzen, "6".to_string(), Some(6)) {
        Folge::Gesetzt { meldung } => assert_eq!(meldung.wert, 6),
        _ => panic!(),
    }
    assert_eq!(z.letzter_stundenwert, 6);
}

#[test]
fn verbindung_laesst_den_stand_unveraendert() {
    let mut z = Zaehler::new(1.0);
    assert!(matches!(z.verarbeite(&Ereignis::Verbunden, lies), Folge::VerbundenMelden));
    assert!(matches!(
        z.verarbeite(&Ereignis::AbosBestaetigt, lies),
        Folge::FristStarten { sekunden: 2 }
    ));
    assert!(matches!(
        z.verarbeite(&Ereignis::Verbindungsfehler, lies),
        Folge::NeuversuchNach { sekunden: 1 }
    ));
    assert!(matches!(z.verarbeite(&Ereignis::Sonstiges, lies), Folge::Nichts));
    assert_eq!(zustand(&z), (1.0, 1.0, false));
}

#[test]
fn frist_ohne_startwert_uebernimmt_den_eigenen_stand() {
    let mut z = Zaehler::new(0.0);
    z.impuls(0.01, plus);
    assert_eq!(z.frist_abgelaufen(), Some(0.01));
    assert_eq!(zustand(&z), (0.01, 0.01, true));
    z.impuls(0.01, plus);
    assert_eq!(z.frist_abgelaufen(), None);
    assert_eq!(zustand(&z), (0.02, 0.01, true));
}

#[test]
fn frist_nach_startwert_ist_wirkungslos() {
    let mut z = Zaehler::new(0.0);
    z.verarbeite(&nachricht(WERT_TOPIC, b"10"), lies);
    assert_eq!(z.frist_abgelaufen(), None);
    assert_eq!(zustand(&z), (10.0, 10.0, true));
}

#[test]
fn berichte_schliessen_aneinander_an() {
    let mut z = Zaehler { stand: 0i64, letzter_stundenwert: 0, initialisiert: true };
    let mut ende = 0;
    let mut summe = 0;
    for impulse in [3, 0, 5, 1] {
        for _ in 0..impulse {
            z.impuls(1, |a, b| a + b);
        }
        let t = Tarif { brennwert: 1, zustandswert: 1 };
        let b = z.stundenbericht(t, |a, b| a - b, |a, b| a * b);
        assert_eq!(b.letzter_wert, ende);
        assert_eq!(b.verbrauch.wert, impulse);
        ende = b.aktueller_wert;
        summe += b.verbrauch.wert;
    }
    assert_eq!(summe, z.stand);
}

#[test]
fn neustart_setzt_am_alten_stand_fort() {
    let mut alt = Zaehler::new(0.0);
    alt.verarbeite(&nachricht(SETZE_TOPIC, b"20.25"), lies);
    let m = alt.impuls(0.25, plus);
    assert!(m.retained);
    let text = format!("{:.2}", m.wert);
    let mut neu = Zaehler::new(0.0);
    neu.verarbeite(&nachricht(m.topic, text.as_bytes()), lies);
    assert_eq!(zustand(&neu), (alt.stand, alt.stand, true));
}

#[test]
fn broker_kennt_den_stand_ab_dem_ersten_impuls() {
    let mut z = Zaehler::new(0.0);
    let mut behalten: Option<f64> = None;
    let merke = |m: Veroeffentlichung<f64>, behalten: &mut Option<f64>| {
        if m.topic == WERT_TOPIC && m.retained {
            *behalten = Some(m.wert);
        }
    };
    merke(z.impuls(0.01, plus), &mut behalten);
    assert_eq!(behalten, Some(z.stand));
    z.frist_abgelaufen();
    if let Folge::Gesetzt { meldung } = z.verarbeite(&nachricht(SETZE_TOPIC, b"50"), lies) {
        merke(meldung, &mut behalten);
    }
    assert_eq!(behalten, Some(50.0));
    merke(z.impuls(0.01, plus), &mut behalten);
    let b = z.stundenbericht(tarif(), minus, mal);
    merke(b.verbrauch, &mut behalten);
    merke(b.verbrauch_kwh, &mut behalten);
    assert_eq!(behalten, Some(z.stand));
}

#[test]
fn neustart_setzt_am_veroeffentlichten_stand_fort() {
    let als_gelesen = |wert: f64| lies(&format!("{:.2}", wert)).unwrap();
    let mut alt = Zaehler::new(0.0);
    alt.frist_abgelaufen();
    let mut m = alt.impuls(0.01, plus);
    for _ in 0..9 {
        m = alt.impuls(0.01, plus);
    }
    assert_eq!(alt.stand, 0.09999999999999999);
    assert_eq!(als_gelesen(alt.stand), 0.1);
    let mut neu = Zaehler::new(0.0);
    neu.verarbeite(&nachricht(m.topic, format!("{:.2}", m.wert).as_bytes()), lies);
    assert_eq!(zustand(&neu), (0.1, 0.1, true));
    assert_eq!(als_gelesen(neu.stand), neu.stand);
}
