//! Settings of the installation. Adapt these values to your environment.

use vstd::prelude::*;

verus! {

/// The GPIO pin (BCM numbering) that the meter's contact pulls low.
pub const GPIO_PIN: u8 = 22;

/// Host name or address of the MQTT broker.
pub const MQTT_BROKER_ADRESSE: &'static str = "192.168.2.3";

pub const MQTT_PORT: u16 = 1893;

pub const MQTT_CLIENT_ID: &'static str = "rpi-gaszaehler";

pub const MQTT_BENUTZER: &'static str = "fhem";

pub const MQTT_PASSWORT: &'static str = "Sonne2020";

pub const MQTT_KEEP_ALIVE_SEKUNDEN: u64 = 5;

/// How many requests the MQTT client queues.
pub const MQTT_WARTESCHLANGE: usize = 10;

/// The meter reading, published after every change.
pub const WERT_TOPIC: &'static str = "haus/gaszaehler/stand";

/// A number received here replaces the meter reading.
pub const SETZE_TOPIC: &'static str = "haus/gaszaehler/set_stand";

/// The consumption of the past hour, in cubic metres.
pub const DIFFERENZ_TOPIC: &'static str = "haus/gaszaehler/verbrauch";

/// The consumption of the past hour, in kilowatt hours.
pub const DIFFERENZ_TOPIC_KWH: &'static str = "haus/gaszaehler/verbrauch-kwh";

/// Edges that come this close after a counted one are bounces of the contact.
pub const DEBOUNCE_MS: u64 = 500;

/// The debounce interval that is asked of the GPIO driver itself.
pub const GPIO_DEBOUNCE_MS: u64 = 50;

/// How long a retained reading may take to arrive after the subscriptions.
pub const STARTWERT_FRIST_SEKUNDEN: u64 = 2;

/// The pause after a failed connection.
pub const NEUVERSUCH_SEKUNDEN: u64 = 1;

/// The four topics differ, so a message belongs to at most one of them.
pub proof fn gesetz_topics_verschieden()
    ensures
        WERT_TOPIC@ != SETZE_TOPIC@,
        WERT_TOPIC@ != DIFFERENZ_TOPIC@,
        WERT_TOPIC@ != DIFFERENZ_TOPIC_KWH@,
        SETZE_TOPIC@ != DIFFERENZ_TOPIC@,
        SETZE_TOPIC@ != DIFFERENZ_TOPIC_KWH@,
        DIFFERENZ_TOPIC@ != DIFFERENZ_TOPIC_KWH@,
{
    reveal_strlit("haus/gaszaehler/stand");
    reveal_strlit("haus/gaszaehler/set_stand");
    reveal_strlit("haus/gaszaehler/verbrauch");
    reveal_strlit("haus/gaszaehler/verbrauch-kwh");
    assert(WERT_TOPIC@.len() == 21);
    assert(SETZE_TOPIC@.len() == 25);
    assert(DIFFERENZ_TOPIC@.len() == 25);
    assert(DIFFERENZ_TOPIC_KWH@.len() == 29);
    assert(SETZE_TOPIC@[16] == 's');
    assert(DIFFERENZ_TOPIC@[16] == 'v');
}

/// The settings fit together: the driver's debounce interval lies within the
/// meter's, which is half a second; a retained reading has two seconds to
/// arrive, and a failed connection is tried again after one.
pub proof fn gesetz_zeiten()
    ensures
        DEBOUNCE_MS == 500,
        0 < GPIO_DEBOUNCE_MS < DEBOUNCE_MS,
        GPIO_DEBOUNCE_MS == 50,
        STARTWERT_FRIST_SEKUNDEN == 2,
        NEUVERSUCH_SEKUNDEN == 1,
        MQTT_KEEP_ALIVE_SEKUNDEN == 5,
        MQTT_WARTESCHLANGE == 10,
{
}

/// The pin and the broker by name.
pub proof fn gesetz_anschluss()
    ensures
        GPIO_PIN == 22,
        MQTT_PORT == 1893,
        MQTT_BROKER_ADRESSE@ == "192.168.2.3"@,
        MQTT_CLIENT_ID@ == "rpi-gaszaehler"@,
{
}

/// The topics by name.
pub proof fn gesetz_topics()
    ensures
        WERT_TOPIC@ == "haus/gaszaehler/stand"@,
        SETZE_TOPIC@ == "haus/gaszaehler/set_stand"@,
        DIFFERENZ_TOPIC@ == "haus/gaszaehler/verbrauch"@,
        DIFFERENZ_TOPIC_KWH@ == "haus/gaszaehler/verbrauch-kwh"@,
{
}

} // verus!
