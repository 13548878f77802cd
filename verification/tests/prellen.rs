use gaszaehler::entprellung::{Entprellung, GpioAktion, GpioEreignis};

const MS: u128 = 1_000_000;

fn flanke(e: &mut Entprellung, jetzt: u128) -> bool {
    match e.verarbeite(GpioEreignis::Flanke { jetzt }) {
        GpioAktion::Zaehlen => true,
        GpioAktion::Nichts => false,
        GpioAktion::FehlerMelden => panic!("eine Flanke ist kein Fehler"),
    }
}

#[test]
fn genau_die_prellzeit_reicht_nicht() {
    let mut e = Entprellung::new(0);
    assert!(!flanke(&mut e, 500 * MS));
    assert!(flanke(&mut e, 500 * MS + 1));
}

#[test]
fn prellen_zaehlt_einmal() {
    let mut e = Entprellung::new(10 * MS);
    assert!(flanke(&mut e, 600 * MS));
    for i in 0..=500u128 {
        assert!(!flanke(&mut e, (600 + i) * MS));
    }
    assert!(flanke(&mut e, 1101 * MS));
}

#[test]
fn abgelehnte_flanken_verlaengern_die_sperre_nicht() {
    let mut e = Entprellung::new(0);
    assert!(!flanke(&mut e, 400 * MS));
    assert!(flanke(&mut e, 501 * MS));
}

#[test]
fn fruehere_zeitpunkte_zaehlen_nicht() {
    let mut e = Entprellung::new(1000 * MS);
    assert!(!flanke(&mut e, 0));
    assert!(!flanke(&mut e, 1500 * MS));
    assert!(flanke(&mut e, 1501 * MS));
}

#[test]
fn weit_entfernte_flanken_zaehlen_alle() {
    let mut e = Entprellung::new(0);
    for i in 1..=100u128 {
        assert!(flanke(&mut e, i * 501 * MS));
    }
    assert!(flanke(&mut e, u128::MAX));
}

#[test]
fn gezaehlte_flanken_haben_abstand() {
    let mut e = Entprellung::new(0);
    let mut gezaehlt: Vec<u128> = Vec::new();
    for i in 1..=1000u128 {
        if flanke(&mut e, i * 37 * MS) {
            gezaehlt.push(i * 37 * MS);
        }
    }
    assert_eq!(gezaehlt.len(), 71);
    for (i, t) in gezaehlt.iter().enumerate() {
        assert!(*t > (i as u128 + 1) * 500 * MS);
    }
}

#[test]
fn zeitablauf_und_fehler_aendern_nichts() {
    let mut e = Entprellung::new(0);
    assert_eq!(e.verarbeite(GpioEreignis::Zeitablauf), GpioAktion::Nichts);
    assert_eq!(e.verarbeite(GpioEreignis::Fehler), GpioAktion::FehlerMelden);
    assert!(!flanke(&mut e, 500 * MS));
    assert!(flanke(&mut e, 501 * MS));
    assert_eq!(e.verarbeite(GpioEreignis::Zeitablauf), GpioAktion::Nichts);
    assert_eq!(e.verarbeite(GpioEreignis::Fehler), GpioAktion::FehlerMelden);
    assert!(!flanke(&mut e, 1001 * MS));
}
