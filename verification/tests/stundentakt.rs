use gaszaehler::uhr::{
    berechne_zeit_bis_naechste_stunde, zeit_bis_naechste_stunde, zeit_fuer_ablesung,
};

fn erwarte(sekunden: u64, wartezeit: u64, text: &str) {
    let (w, t) = zeit_bis_naechste_stunde(sekunden);
    assert_eq!(w, wartezeit);
    assert_eq!(t, text);
}

#[test]
fn zur_vollen_stunde_wird_auf_die_naechste_gewartet() {
    erwarte(0, 3601, "01:00 UTC");
    erwarte(3600, 3601, "02:00 UTC");
}

#[test]
fn kurz_vor_der_vollen_stunde() {
    erwarte(3599, 2, "01:00 UTC");
    erwarte(7199, 2, "02:00 UTC");
}

#[test]
fn mitten_in_der_stunde() {
    erwarte(9 * 3600 + 1800, 1801, "10:00 UTC");
    erwarte(18 * 3600 + 1, 3600, "19:00 UTC");
    erwarte(19 * 3600 + 1, 3600, "20:00 UTC");
}

#[test]
fn nach_mitternacht_beginnt_die_zaehlung_neu() {
    erwarte(23 * 3600, 3601, "00:00 UTC");
    erwarte(22 * 3600, 3601, "23:00 UTC");
    // 14 November 2023, 22:13:20 UTC
    erwarte(1_700_000_000, 2801, "23:00 UTC");
}

#[test]
fn alle_stunden_des_tages() {
    for h in 0..24u64 {
        let (_, text) = zeit_bis_naechste_stunde(86_400 * 19_000 + h * 3600 + 17);
        assert_eq!(text, format!("{:02}:00 UTC", (h + 1) % 24));
    }
}

#[test]
fn groesster_zeitpunkt() {
    let s = u64::MAX;
    let (w, text) = zeit_bis_naechste_stunde(s);
    assert_eq!(w, 3600 - s % 3600 + 1);
    assert_eq!(text, format!("{:02}:00 UTC", (s / 3600 + 1) % 24));
}

#[test]
fn meldungen_folgen_im_stundentakt() {
    let mut s: u64 = 1_700_000_000;
    let (erste, _) = zeit_bis_naechste_stunde(s);
    s += erste;
    for verspaetung in [0u64, 1, 60, 3598] {
        let (w, _) = zeit_bis_naechste_stunde(s + verspaetung);
        assert_eq!(verspaetung + w, 3600);
        s += 3600;
    }
}

#[test]
fn wartezeit_liegt_in_ihren_grenzen() {
    for s in 0..7200u64 {
        let (w, _) = zeit_bis_naechste_stunde(s);
        assert!(2 <= w && w <= 3601);
        assert_eq!((s + w) % 3600, 1);
    }
}

#[test]
fn systemuhr_ergibt_eine_wartezeit() {
    let (w, text) = berechne_zeit_bis_naechste_stunde().unwrap();
    assert!(2 <= w && w <= 3601);
    assert_eq!(text.len(), 9);
    assert!(text.ends_with(":00 UTC"));
    let stunde: u64 = text[..2].parse().unwrap();
    assert!(stunde < 24);
}

#[test]
fn ablesung_vor_der_epoche_hat_keine_antwort() {
    assert_eq!(zeit_fuer_ablesung(None), None);
    assert_eq!(zeit_fuer_ablesung(Some(0)), Some((3601, "01:00 UTC".to_string())));
    assert_eq!(zeit_fuer_ablesung(Some(3599)), Some((2, "01:00 UTC".to_string())));
}
