//! What holds of the meter over whole runs.

use crate::konfiguration::{gesetz_topics_verschieden, SETZE_TOPIC, WERT_TOPIC};
use crate::mqtt::{
    entscheidung, stand_meldung, verbrauch_kwh_meldung, verbrauch_meldung, AuftragSicht,
    EreignisSicht, VeroeffentlichungSicht, Ziel,
};
use crate::zaehler::{uebernahme_folge, Folge, FolgeSicht, Vorgang, Zaehler};
use vstd::prelude::*;
use vstd::utf8::*;

verus! {

/// A message for the meter to be set to a number.
pub open spec fn setzt<V>(vorgang: Vorgang<V>) -> bool {
    vorgang matches Vorgang::Empfang { topic, payload, gelesen } && topic == SETZE_TOPIC@
        && valid_utf8(payload) && gelesen is Some
}

/// A message that brings the reading kept by the broker, or the meter's own
/// publication back.
pub open spec fn bringt_stand<V>(vorgang: Vorgang<V>) -> bool {
    vorgang matches Vorgang::Empfang { topic, .. } && topic == WERT_TOPIC@
}

/// The meter takes a value over at `vorgang`: a number to be set, a starting
/// value, or, at the end of the time limit, its own reading.
pub open spec fn uebernimmt<V>(z: Zaehler<V>, vorgang: Vorgang<V>) -> bool {
    match vorgang {
        Vorgang::Empfang { topic, payload, gelesen } => entscheidung(
            z.initialisiert,
            EreignisSicht::Nachricht { topic, payload },
        ) is Lies && gelesen is Some,
        Vorgang::Frist => !z.initialisiert,
        _ => false,
    }
}

/// The meter takes no value over during `vorgaenge`.
pub open spec fn ungestoert<V>(z: Zaehler<V>, vorgaenge: Seq<Vorgang<V>>) -> bool {
    forall|i: int|
        0 <= i < vorgaenge.len() ==> !uebernimmt(
            z.nach_allen(vorgaenge.take(i)),
            #[trigger] vorgaenge[i],
        )
}

/// What holds of a run without values taken over holds of it without its end.
proof fn lemma_ungestoert_davor<V>(z: Zaehler<V>, vorgaenge: Seq<Vorgang<V>>)
    requires
        ungestoert(z, vorgaenge),
        vorgaenge.len() > 0,
    ensures
        ungestoert(z, vorgaenge.drop_last()),
        !uebernimmt(z.nach_allen(vorgaenge.drop_last()), vorgaenge.last()),
{
    let davor = vorgaenge.drop_last();
    assert forall|i: int| 0 <= i < davor.len() implies !uebernimmt(
        z.nach_allen(davor.take(i)),
        #[trigger] davor[i],
    ) by {
        assert(davor[i] == vorgaenge[i]);
        assert(davor.take(i) =~= vorgaenge.take(i));
    }
    assert(!uebernimmt(
        z.nach_allen(vorgaenge.take(vorgaenge.len() - 1)),
        vorgaenge[vorgaenge.len() - 1],
    ));
    assert(vorgaenge.take(vorgaenge.len() - 1) =~= davor);
}

/// Once a starting value is known, only a number to be set is taken over.
pub proof fn gesetz_nur_setzen_stoert<V>(z: Zaehler<V>, vorgaenge: Seq<Vorgang<V>>)
    requires
        z.initialisiert,
    ensures
        ungestoert(z, vorgaenge) <==> forall|i: int|
            0 <= i < vorgaenge.len() ==> !setzt(#[trigger] vorgaenge[i]),
{
    gesetz_topics_verschieden();
    assert forall|i: int| 0 <= i < vorgaenge.len() implies uebernimmt(
        z.nach_allen(vorgaenge.take(i)),
        #[trigger] vorgaenge[i],
    ) == setzt(vorgaenge[i]) by {
        gesetz_initialisiert_bleibt(z, vorgaenge.take(i));
    }
}

/// Once a starting value is known, that stays so, whatever happens.
pub proof fn gesetz_initialisiert_bleibt<V>(z: Zaehler<V>, vorgaenge: Seq<Vorgang<V>>)
    requires
        z.initialisiert,
    ensures
        z.nach_allen(vorgaenge).initialisiert,
    decreases vorgaenge.len(),
{
    if vorgaenge.len() > 0 {
        gesetz_initialisiert_bleibt(z, vorgaenge.drop_last());
    }
}

/// The reading that the meter published itself is never taken for a starting
/// value once one is known: after that, messages on the topic of the reading
/// and the end of the time limit can be left out of any run.
pub proof fn gesetz_eigener_stand_wirkungslos<V>(z: Zaehler<V>, vorgaenge: Seq<Vorgang<V>>)
    requires
        z.initialisiert,
    ensures
        z.nach_allen(vorgaenge) == z.nach_allen(
            vorgaenge.filter(|v: Vorgang<V>| !bringt_stand(v) && !(v is Frist)),
        ),
    decreases vorgaenge.len(),
{
    let wirksam = |v: Vorgang<V>| !bringt_stand(v) && !(v is Frist);
    reveal(Seq::filter);
    if vorgaenge.len() > 0 {
        let davor = vorgaenge.drop_last();
        gesetz_topics_verschieden();
        gesetz_eigener_stand_wirkungslos(z, davor);
        gesetz_initialisiert_bleibt(z, davor);
        if wirksam(vorgaenge.last()) {
            assert(vorgaenge.filter(wirksam).drop_last() =~= davor.filter(wirksam));
        }
    }
}

/// The first starting value from the broker is taken as the reading and as the
/// start of the next report; later ones are ignored, whatever happens between.
pub proof fn gesetz_startwert_nur_einmal<V>(
    z: Zaehler<V>,
    payload: Seq<u8>,
    wert: V,
    dazwischen: Seq<Vorgang<V>>,
    spaeterer_payload: Seq<u8>,
    spaeterer_wert: Option<V>,
)
    requires
        !z.initialisiert,
        valid_utf8(payload),
    ensures
        ({
            let erster = z.nach(
                Vorgang::Empfang { topic: WERT_TOPIC@, payload, gelesen: Some(wert) },
            );
            let zwischen = erster.nach_allen(dazwischen);
            &&& erster == z.mit_wert(wert)
            &&& zwischen.nach(
                Vorgang::Empfang {
                    topic: WERT_TOPIC@,
                    payload: spaeterer_payload,
                    gelesen: spaeterer_wert,
                },
            ) == zwischen
        }),
{
    gesetz_topics_verschieden();
    gesetz_initialisiert_bleibt(z.mit_wert(wert), dazwischen);
}

/// A number to be set is always taken, and resets the hourly consumption: the
/// reading and the start of the next report are both that number, so whatever
/// was counted before is in no later report.
pub proof fn gesetz_setzen_setzt_verbrauch_zurueck<V>(z: Zaehler<V>, vorgang: Vorgang<V>)
    requires
        setzt(vorgang),
    ensures
        z.nach(vorgang) == z.mit_wert(vorgang->gelesen->Some_0),
        z.nach(vorgang).stand == z.nach(vorgang).letzter_stundenwert,
        z.nach(vorgang).initialisiert,
{
    gesetz_topics_verschieden();
}

/// A message changes nothing when it is on a foreign topic, is no text, or its
/// text is no number.
pub proof fn gesetz_unbrauchbare_nachricht<V>(
    z: Zaehler<V>,
    topic: Seq<char>,
    payload: Seq<u8>,
    gelesen: Option<V>,
)
    requires
        (topic != WERT_TOPIC@ && topic != SETZE_TOPIC@) || !valid_utf8(payload) || gelesen is None,
    ensures
        z.nach(Vorgang::Empfang { topic, payload, gelesen }) == z,
{
}

/// The end of the time limit matters at most once, and never changes the reading.
pub proof fn gesetz_frist_hoechstens_einmal<V>(z: Zaehler<V>, dazwischen: Seq<Vorgang<V>>)
    ensures
        z.nach(Vorgang::Frist).stand == z.stand,
        ({
            let zwischen = z.nach(Vorgang::Frist).nach_allen(dazwischen);
            zwischen.nach(Vorgang::Frist) == zwischen
        }),
{
    gesetz_initialisiert_bleibt(z.nach(Vorgang::Frist), dazwischen);
}

/// Which happening changes what: a pulse only the reading, the end of an hour
/// only the start of the next report, and to the present reading; the end of the
/// time limit only a meter without a starting value, which then starts from its
/// own reading; a message only where its number is taken, and then it is the
/// reading and the start of the next report.
pub proof fn gesetz_wirkung<V>(z: Zaehler<V>, vorgang: Vorgang<V>)
    ensures
        ({
            let n = z.nach(vorgang);
            &&& vorgang matches Vorgang::Impuls { stand } ==> {
                &&& n.stand == stand
                &&& n.letzter_stundenwert == z.letzter_stundenwert
                &&& n.initialisiert == z.initialisiert
            }
            &&& vorgang is Stunde ==> {
                &&& n.stand == z.stand
                &&& n.letzter_stundenwert == z.stand
                &&& n.initialisiert == z.initialisiert
            }
            &&& vorgang is Frist ==> {
                &&& n.stand == z.stand
                &&& n.initialisiert
                &&& z.initialisiert ==> n.letzter_stundenwert == z.letzter_stundenwert
                &&& !z.initialisiert ==> n.letzter_stundenwert == z.stand
            }
            &&& vorgang matches Vorgang::Empfang { topic, payload, gelesen } ==> {
                let gefragt = valid_utf8(payload) && (topic == SETZE_TOPIC@ || (topic
                    == WERT_TOPIC@ && !z.initialisiert));
                &&& gefragt ==> (gelesen matches Some(wert) ==> {
                    &&& n.stand == wert
                    &&& n.letzter_stundenwert == wert
                    &&& n.initialisiert
                })
                &&& !gefragt || gelesen is None ==> n == z
            }
        }),
{
    gesetz_topics_verschieden();
}

/// A value that is taken over becomes the reading and the start of the next
/// report, whatever the meter was before; without one, nothing changes.
pub proof fn gesetz_uebernahme<V>(z: Zaehler<V>, gelesen: Option<V>)
    ensures
        gelesen matches Some(wert) ==> {
            &&& z.nach_uebernahme(gelesen).stand == wert
            &&& z.nach_uebernahme(gelesen).letzter_stundenwert == wert
            &&& z.nach_uebernahme(gelesen).initialisiert
            &&& z.nach_uebernahme(gelesen) == z.mit_wert(wert)
        },
        gelesen is None ==> z.nach_uebernahme(gelesen) == z,
{
}

/// Every number that the meter is set to is published for the broker to keep,
/// whatever text it was read from; a starting value is not published, as the
/// broker has it. A text for setting that is no number is reported whole.
pub proof fn gesetz_uebernahme_wird_gemeldet<V>(ziel: Ziel, text: Seq<char>, gelesen: Option<V>)
    ensures
        ({
            let folge = uebernahme_folge(ziel, text, gelesen);
            &&& ziel is Setzen ==> (gelesen matches Some(wert) ==> (
            folge matches FolgeSicht::Gesetzt { meldung } && {
                &&& meldung.topic == WERT_TOPIC@
                &&& meldung.qos is MindestensEinmal
                &&& meldung.retained
                &&& meldung.wert == wert
            }))
            &&& ziel is Setzen && gelesen is None ==> (
            folge matches FolgeSicht::UngueltigerPayload { text: t } && t == text)
            &&& ziel is Startwert ==> (gelesen matches Some(wert) ==> (
            folge matches FolgeSicht::Wiederhergestellt { wert: w } && w == wert))
            &&& ziel is Startwert && gelesen is None ==> folge is Nichts
        }),
{
}

/// The view of a consequence leaves nothing out and changes nothing.
pub proof fn gesetz_folge_sicht_treu<V>(f: Folge<V>)
    ensures
        f matches Folge::Wiederhergestellt { wert } ==> f@ == (FolgeSicht::Wiederhergestellt {
            wert,
        }),
        f matches Folge::Gesetzt { meldung } ==> (f@ matches FolgeSicht::Gesetzt { meldung: m } && {
            &&& m.topic == meldung.topic@
            &&& m.qos == meldung.qos
            &&& m.retained == meldung.retained
            &&& m.wert == meldung.wert
        }),
        f matches Folge::UngueltigerPayload { text } ==> f@ == (FolgeSicht::<
            V,
        >::UngueltigerPayload { text: text@ }),
        f is VerbundenMelden <==> f@ is VerbundenMelden,
        f matches Folge::FristStarten { sekunden } ==> f@ == (FolgeSicht::<V>::FristStarten {
            sekunden,
        }),
        f matches Folge::NeuversuchNach { sekunden } ==> f@ == (FolgeSicht::<V>::NeuversuchNach {
            sekunden,
        }),
        f is Nichts <==> f@ is Nichts,
{
}

/// A run is its happenings one after the other.
pub proof fn gesetz_lauf<V>(z: Zaehler<V>, vorgaenge: Seq<Vorgang<V>>, vorgang: Vorgang<V>)
    ensures
        z.nach_allen(seq![]) == z,
        z.nach_allen(vorgaenge.push(vorgang)) == z.nach_allen(vorgaenge).nach(vorgang),
{
    assert(vorgaenge.push(vorgang).drop_last() =~= vorgaenge);
}

/// Reports join without gap or overlap: unless the meter takes a value over in
/// between, a report starts from the reading at which the one before it ended.
pub proof fn gesetz_berichte_schliessen_an<V>(z: Zaehler<V>, dazwischen: Seq<Vorgang<V>>)
    requires
        ungestoert(z.nach(Vorgang::Stunde), dazwischen),
        forall|i: int| 0 <= i < dazwischen.len() ==> !(#[trigger] dazwischen[i] is Stunde),
    ensures
        z.nach(Vorgang::Stunde).nach_allen(dazwischen).letzter_stundenwert == z.stand,
    decreases dazwischen.len(),
{
    if dazwischen.len() > 0 {
        let davor = dazwischen.drop_last();
        assert forall|i: int| 0 <= i < davor.len() implies !(#[trigger] davor[i] is Stunde) by {
            assert(davor[i] == dazwischen[i]);
        }
        lemma_ungestoert_davor(z.nach(Vorgang::Stunde), dazwischen);
        gesetz_berichte_schliessen_an(z, davor);
        assert(!(dazwischen[dazwischen.len() - 1] is Stunde));
    }
}

/// The reading that the broker keeps after the publication `meldung`, when it
/// kept `behalten` before. The broker keeps the text of a number; what it is
/// taken to keep is the number that the text reads as: `als_gelesen(wert)` for
/// the text that `wert` is published as.
pub open spec fn behalten_aus<V>(
    als_gelesen: spec_fn(V) -> V,
    meldung: VeroeffentlichungSicht<V>,
    behalten: Option<V>,
) -> Option<V> {
    if meldung.topic == WERT_TOPIC@ && meldung.retained {
        Some(als_gelesen(meldung.wert))
    } else {
        behalten
    }
}

/// The reading that the broker keeps after `vorgang`, which happens to the meter
/// `z`, when it kept `behalten` before.
pub open spec fn behalten_nach<V>(
    als_gelesen: spec_fn(V) -> V,
    z: Zaehler<V>,
    behalten: Option<V>,
    vorgang: Vorgang<V>,
) -> Option<V> {
    match vorgang {
        Vorgang::Impuls { stand } => behalten_aus(als_gelesen, stand_meldung(stand), behalten),
        Vorgang::Empfang { topic, payload, gelesen } => match entscheidung(
            z.initialisiert,
            EreignisSicht::Nachricht { topic, payload },
        ) {
            AuftragSicht::Lies { ziel, text } => match uebernahme_folge(ziel, text, gelesen) {
                FolgeSicht::Gesetzt { meldung } => behalten_aus(als_gelesen, meldung, behalten),
                _ => behalten,
            },
            _ => behalten,
        },
        _ => behalten,
    }
}

/// The reading that the broker keeps after all of `vorgaenge`.
pub open spec fn behalten_nach_allen<V>(
    als_gelesen: spec_fn(V) -> V,
    z: Zaehler<V>,
    behalten: Option<V>,
    vorgaenge: Seq<Vorgang<V>>,
) -> Option<V>
    decreases vorgaenge.len(),
{
    if vorgaenge.len() == 0 {
        behalten
    } else {
        behalten_nach(
            als_gelesen,
            z.nach_allen(vorgaenge.drop_last()),
            behalten_nach_allen(als_gelesen, z, behalten, vorgaenge.drop_last()),
            vorgaenge.last(),
        )
    }
}

/// At the `i`-th of `vorgaenge` the meter takes a starting value from the broker.
pub open spec fn nimmt_startwert<V>(z: Zaehler<V>, vorgaenge: Seq<Vorgang<V>>, i: int) -> bool {
    &&& 0 <= i < vorgaenge.len()
    &&& bringt_stand(vorgaenge[i])
    &&& uebernimmt(z.nach_allen(vorgaenge.take(i)), vorgaenge[i])
}

/// Where the meter takes a starting value during `vorgaenge`, it is the reading
/// that the broker keeps at that moment.
pub open spec fn startwert_ist_behalten<V>(
    als_gelesen: spec_fn(V) -> V,
    z: Zaehler<V>,
    behalten: Option<V>,
    vorgaenge: Seq<Vorgang<V>>,
) -> bool {
    forall|i: int| #[trigger]
        nimmt_startwert(z, vorgaenge, i) ==> vorgaenge[i]->gelesen == behalten_nach_allen(
            als_gelesen,
            z,
            behalten,
            vorgaenge.take(i),
        )
}

/// A number that was read from a published text is published as a text that
/// reads as the same number, and `behalten` is such a number.
pub open spec fn liest_sich_gleich<V>(als_gelesen: spec_fn(V) -> V, behalten: Option<V>) -> bool {
    &&& forall|wert: V| als_gelesen(#[trigger] als_gelesen(wert)) == als_gelesen(wert)
    &&& behalten matches Some(wert) ==> als_gelesen(wert) == wert
}

/// The `i`-th of `vorgaenge` is a pulse, or a message whose number the meter takes.
pub open spec fn bestimmt_stand<V>(z: Zaehler<V>, vorgaenge: Seq<Vorgang<V>>, i: int) -> bool {
    &&& 0 <= i < vorgaenge.len()
    &&& vorgaenge[i] is Impuls || (vorgaenge[i] is Empfang && uebernimmt(
        z.nach_allen(vorgaenge.take(i)),
        vorgaenge[i],
    ))
}

/// What the broker keeps is published again as a text that reads the same.
proof fn lemma_behalten_liest_sich_gleich<V>(
    als_gelesen: spec_fn(V) -> V,
    z: Zaehler<V>,
    behalten: Option<V>,
    vorgaenge: Seq<Vorgang<V>>,
)
    requires
        liest_sich_gleich(als_gelesen, behalten),
    ensures
        liest_sich_gleich(als_gelesen, behalten_nach_allen(als_gelesen, z, behalten, vorgaenge)),
    decreases vorgaenge.len(),
{
    if vorgaenge.len() > 0 {
        lemma_behalten_liest_sich_gleich(als_gelesen, z, behalten, vorgaenge.drop_last());
    }
}

/// Every change of the reading is published: from the first pulse, set number or
/// restored reading on, the broker keeps what the text of the meter's reading
/// reads as; so it does in any run at whose start it does. Only where a reading
/// is restored, a number read from a published text has to read as itself when
/// it is published again.
pub proof fn gesetz_broker_kennt_den_stand<V>(
    als_gelesen: spec_fn(V) -> V,
    z: Zaehler<V>,
    behalten: Option<V>,
    vorgaenge: Seq<Vorgang<V>>,
)
    requires
        startwert_ist_behalten(als_gelesen, z, behalten, vorgaenge),
        behalten == Some(als_gelesen(z.stand)) || exists|i: int| bestimmt_stand(z, vorgaenge, i),
        (exists|i: int| nimmt_startwert(z, vorgaenge, i)) ==> liest_sich_gleich(
            als_gelesen,
            behalten,
        ),
    ensures
        behalten_nach_allen(als_gelesen, z, behalten, vorgaenge) == Some(
            als_gelesen(z.nach_allen(vorgaenge).stand),
        ),
    decreases vorgaenge.len(),
{
    let n = vorgaenge.len() as int;
    if n > 0 {
        let davor = vorgaenge.drop_last();
        let letzter = vorgaenge[n - 1];
        gesetz_topics_verschieden();
        assert(vorgaenge.take(n - 1) =~= davor);
        if bestimmt_stand(z, vorgaenge, n - 1) {
            if bringt_stand(letzter) {
                assert(nimmt_startwert(z, vorgaenge, n - 1));
                lemma_behalten_liest_sich_gleich(als_gelesen, z, behalten, davor);
            }
        } else {
            assert forall|i: int| #[trigger] nimmt_startwert(z, davor, i) implies nimmt_startwert(
                z,
                vorgaenge,
                i,
            ) && davor[i]->gelesen == behalten_nach_allen(
                als_gelesen,
                z,
                behalten,
                davor.take(i),
            ) by {
                assert(davor.take(i) =~= vorgaenge.take(i));
                assert(nimmt_startwert(z, vorgaenge, i));
            }
            if behalten != Some(als_gelesen(z.stand)) {
                let i = choose|i: int| bestimmt_stand(z, vorgaenge, i);
                assert(davor.take(i) =~= vorgaenge.take(i));
                assert(bestimmt_stand(z, davor, i));
            }
            gesetz_broker_kennt_den_stand(als_gelesen, z, behalten, davor);
        }
    }
}

/// A restart goes on from the old reading as it was published: a new meter,
/// whatever it starts from, that receives the text kept by the broker, has as
/// its reading what the text of the old meter's last reading reads as, and
/// starts its first report from there.
pub proof fn gesetz_neustart<V>(
    als_gelesen: spec_fn(V) -> V,
    z: Zaehler<V>,
    behalten: Option<V>,
    vorgaenge: Seq<Vorgang<V>>,
    neu: Zaehler<V>,
    payload: Seq<u8>,
)
    requires
        startwert_ist_behalten(als_gelesen, z, behalten, vorgaenge),
        behalten == Some(als_gelesen(z.stand)) || exists|i: int| bestimmt_stand(z, vorgaenge, i),
        (exists|i: int| nimmt_startwert(z, vorgaenge, i)) ==> liest_sich_gleich(
            als_gelesen,
            behalten,
        ),
        !neu.initialisiert,
        valid_utf8(payload),
    ensures
        neu.nach(
            Vorgang::Empfang {
                topic: WERT_TOPIC@,
                payload,
                gelesen: behalten_nach_allen(als_gelesen, z, behalten, vorgaenge),
            },
        ) == neu.mit_wert(als_gelesen(z.nach_allen(vorgaenge).stand)),
{
    gesetz_broker_kennt_den_stand(als_gelesen, z, behalten, vorgaenge);
}

/// Where every number reads as itself from its published text, a restart goes on
/// from exactly the old reading.
pub proof fn gesetz_neustart_ohne_rundung<V>(
    als_gelesen: spec_fn(V) -> V,
    z: Zaehler<V>,
    behalten: Option<V>,
    vorgaenge: Seq<Vorgang<V>>,
    neu: Zaehler<V>,
    payload: Seq<u8>,
)
    requires
        forall|wert: V| #[trigger] als_gelesen(wert) == wert,
        startwert_ist_behalten(als_gelesen, z, behalten, vorgaenge),
        behalten == Some(z.stand) || exists|i: int| bestimmt_stand(z, vorgaenge, i),
        !neu.initialisiert,
        valid_utf8(payload),
    ensures
        behalten_nach_allen(als_gelesen, z, behalten, vorgaenge) == Some(
            z.nach_allen(vorgaenge).stand,
        ),
        neu.nach(
            Vorgang::Empfang {
                topic: WERT_TOPIC@,
                payload,
                gelesen: behalten_nach_allen(als_gelesen, z, behalten, vorgaenge),
            },
        ) == neu.mit_wert(z.nach_allen(vorgaenge).stand),
{
    gesetz_broker_kennt_den_stand(als_gelesen, z, behalten, vorgaenge);
}

/// The hourly consumption is not kept, and is no reading: publishing it leaves
/// the reading that the broker keeps as it is.
pub proof fn gesetz_verbrauch_wird_nicht_behalten<V>(
    als_gelesen: spec_fn(V) -> V,
    wert: V,
    behalten: Option<V>,
)
    ensures
        !verbrauch_meldung(wert).retained,
        !verbrauch_kwh_meldung(wert).retained,
        behalten_aus(als_gelesen, verbrauch_meldung(wert), behalten) == behalten,
        behalten_aus(als_gelesen, verbrauch_kwh_meldung(wert), behalten) == behalten,
{
}

/// The number of pulses among `vorgaenge`.
pub open spec fn impulse<V>(vorgaenge: Seq<Vorgang<V>>) -> int
    decreases vorgaenge.len(),
{
    if vorgaenge.len() == 0 {
        0
    } else {
        impulse(vorgaenge.drop_last()) + if vorgaenge.last() is Impuls {
            1int
        } else {
            0int
        }
    }
}

/// The sum of all consumptions reported during `vorgaenge`, with exact numbers.
pub open spec fn gemeldeter_verbrauch(z: Zaehler<int>, vorgaenge: Seq<Vorgang<int>>) -> int
    decreases vorgaenge.len(),
{
    if vorgaenge.len() == 0 {
        0
    } else {
        let davor = z.nach_allen(vorgaenge.drop_last());
        gemeldeter_verbrauch(z, vorgaenge.drop_last()) + if vorgaenge.last() is Stunde {
            davor.stand - davor.letzter_stundenwert
        } else {
            0
        }
    }
}

/// Every pulse among `vorgaenge` raises the reading by exactly `schritt`.
pub open spec fn exakt(z: Zaehler<int>, schritt: int, vorgaenge: Seq<Vorgang<int>>) -> bool {
    forall|i: int|
        0 <= i < vorgaenge.len() ==> (#[trigger] vorgaenge[i] matches Vorgang::Impuls { stand }
            ==> stand == z.nach_allen(vorgaenge.take(i)).stand + schritt)
}

/// No pulse is lost and none is reported twice: where numbers are added and
/// subtracted exactly and the meter takes no value over, the reported
/// consumptions and the consumption still to be reported grow by `schritt` for
/// each pulse.
pub proof fn gesetz_jeder_impuls_wird_gemeldet(
    z: Zaehler<int>,
    schritt: int,
    vorgaenge: Seq<Vorgang<int>>,
)
    requires
        exakt(z, schritt, vorgaenge),
        ungestoert(z, vorgaenge),
    ensures
        ({
            let ende = z.nach_allen(vorgaenge);
            &&& ende.stand == z.stand + impulse(vorgaenge) * schritt
            &&& gemeldeter_verbrauch(z, vorgaenge) + (ende.stand - ende.letzter_stundenwert) == (
            z.stand - z.letzter_stundenwert) + impulse(vorgaenge) * schritt
        }),
    decreases vorgaenge.len(),
{
    let n = vorgaenge.len() as int;
    if n > 0 {
        let davor = vorgaenge.drop_last();
        assert forall|i: int| 0 <= i < davor.len() implies (#[trigger] davor[i] matches
            Vorgang::Impuls { stand } ==> stand == z.nach_allen(davor.take(i)).stand + schritt) by {
            assert(davor[i] == vorgaenge[i]);
            assert(davor.take(i) =~= vorgaenge.take(i));
        }
        lemma_ungestoert_davor(z, vorgaenge);
        gesetz_jeder_impuls_wird_gemeldet(z, schritt, davor);
        assert(vorgaenge.take(n - 1) =~= davor);
        assert(vorgaenge[n - 1] == vorgaenge.last());
        let k = impulse(davor);
        assert((k + 1) * schritt == k * schritt + schritt) by (nonlinear_arith);
    }
}

/// The consumption of an hour is `schritt` times the pulses of that hour, where
/// numbers are added and subtracted exactly and the meter takes no value over.
pub proof fn gesetz_verbrauch_einer_stunde(
    z: Zaehler<int>,
    schritt: int,
    stunde: Seq<Vorgang<int>>,
)
    requires
        exakt(z.nach(Vorgang::Stunde), schritt, stunde),
        ungestoert(z.nach(Vorgang::Stunde), stunde),
        forall|i: int| 0 <= i < stunde.len() ==> !(#[trigger] stunde[i] is Stunde),
    ensures
        ({
            let ende = z.nach(Vorgang::Stunde).nach_allen(stunde);
            ende.stand - ende.letzter_stundenwert == impulse(stunde) * schritt
        }),
{
    gesetz_berichte_schliessen_an(z, stunde);
    gesetz_jeder_impuls_wird_gemeldet(z.nach(Vorgang::Stunde), schritt, stunde);
}

} // verus!
