use stereo_camera::hotspot::linux::{decide, HotspotLinux, PatternError, Repair};
use stereo_camera::hotspot::windows::{HotspotWindows, Tethering};

fn words(list: &[&str]) -> Vec<String> {
    list.iter().map(|word| word.to_string()).collect()
}

const LISTING: &str = "connection.id:                          Hotspot\n\
802-11-wireless.ssid:                   rig\n\
802-11-wireless.mode:                   ap\n\
802-11-wireless-security.psk:           secret123\n";

#[test]
fn the_repair_for_each_finding() {
    assert_eq!(decide(false, false, false), Repair::Create);
    assert_eq!(decide(false, true, true), Repair::Create);
    assert_eq!(decide(true, true, true), Repair::Keep);
    assert_eq!(decide(true, false, true), Repair::Recreate);
    assert_eq!(decide(true, true, false), Repair::Recreate);
    assert_eq!(decide(true, false, false), Repair::Recreate);
}

#[test]
fn a_new_hotspot_is_stored_under_its_name() {
    let hotspot = HotspotLinux::new("rig", "secret123");
    assert_eq!(hotspot.name, "Hotspot");
    assert_eq!(hotspot.ssid, "rig");
    assert_eq!(hotspot.password, "secret123");
    assert_eq!(HotspotLinux::program(), "nmcli");
}

#[test]
fn a_missing_connection_is_created() {
    let hotspot = HotspotLinux::new("rig", "secret123");
    assert_eq!(hotspot.ensure_hotspot_exists(false, ""), Ok(Repair::Create));
    assert_eq!(hotspot.ensure_hotspot_exists(false, LISTING), Ok(Repair::Create));
    let broken = HotspotLinux::new("rig(", "secret123");
    assert_eq!(broken.ensure_hotspot_exists(false, ""), Ok(Repair::Create));
}

#[test]
fn a_matching_connection_is_kept() {
    let hotspot = HotspotLinux::new("rig", "secret123");
    assert_eq!(hotspot.ensure_hotspot_exists(true, LISTING), Ok(Repair::Keep));
}

#[test]
fn a_connection_with_other_settings_is_made_anew() {
    assert_eq!(
        HotspotLinux::new("other", "secret123").ensure_hotspot_exists(true, LISTING),
        Ok(Repair::Recreate)
    );
    assert_eq!(
        HotspotLinux::new("rig", "changed").ensure_hotspot_exists(true, LISTING),
        Ok(Repair::Recreate)
    );
    assert_eq!(
        HotspotLinux::new("rig", "secret123").ensure_hotspot_exists(true, ""),
        Ok(Repair::Recreate)
    );
}

#[test]
fn names_are_read_as_patterns() {
    assert_eq!(
        HotspotLinux::new("r.g", "secret\\d+").ensure_hotspot_exists(true, LISTING),
        Ok(Repair::Keep)
    );
    assert_eq!(
        HotspotLinux::new("ri", "secret").ensure_hotspot_exists(true, LISTING),
        Ok(Repair::Keep)
    );
}

#[test]
fn a_name_that_is_no_pattern_is_reported() {
    assert_eq!(
        HotspotLinux::new("rig(", "secret123").ensure_hotspot_exists(true, LISTING),
        Err(PatternError::Ssid)
    );
    assert_eq!(
        HotspotLinux::new("rig", "secret[").ensure_hotspot_exists(true, LISTING),
        Err(PatternError::Password)
    );
    assert_eq!(
        HotspotLinux::new("rig(", "secret[").ensure_hotspot_exists(true, LISTING),
        Err(PatternError::Ssid)
    );
}

#[test]
fn the_arguments_of_each_step() {
    let hotspot = HotspotLinux::new("rig", "secret123");
    assert_eq!(hotspot.show_connection(), words(&["connection", "show", "Hotspot"]));
    assert_eq!(
        hotspot.create_hotspot(),
        words(&[
            "device", "wifi", "hotspot", "ifname", "wlP1p1s0", "con-name", "Hotspot", "ssid",
            "rig", "password", "secret123",
        ])
    );
    assert_eq!(hotspot.delete_hotspot(), words(&["connection", "delete", "Hotspot"]));
    assert_eq!(hotspot.show_password(), words(&["dev", "wifi", "show-password"]));
}

#[test]
fn the_steps_of_a_start() {
    let hotspot = HotspotLinux::new("rig", "secret123");
    let up = words(&["connection", "up", "Hotspot"]);
    let password = words(&["dev", "wifi", "show-password"]);
    assert_eq!(hotspot.start(Repair::Keep), vec![up.clone(), password.clone()]);
    assert_eq!(
        hotspot.start(Repair::Create),
        vec![hotspot.create_hotspot(), up.clone(), password.clone()]
    );
    assert_eq!(
        hotspot.start(Repair::Recreate),
        vec![hotspot.delete_hotspot(), hotspot.create_hotspot(), up, password]
    );
}

#[test]
fn the_step_of_a_stop() {
    let hotspot = HotspotLinux::new("rig", "secret123");
    assert_eq!(hotspot.stop(), vec![words(&["connection", "down", "Hotspot"])]);
}

#[test]
fn tethering_is_configured_where_the_settings_differ() {
    let hotspot = HotspotWindows { ssid: "rig".to_string(), password: "secret123".to_string() };
    assert_eq!(
        hotspot.start("rig", "secret123", true),
        Tethering { configure: false, switch: true }
    );
    assert_eq!(
        hotspot.start("rig", "secret123", false),
        Tethering { configure: false, switch: false }
    );
    assert_eq!(hotspot.start("old", "secret123", true), Tethering { configure: true, switch: true });
    assert_eq!(hotspot.start("rig", "old", false), Tethering { configure: true, switch: false });
    assert_eq!(hotspot.stop(true), Tethering { configure: false, switch: true });
    assert_eq!(hotspot.stop(false), Tethering { configure: false, switch: false });
}
