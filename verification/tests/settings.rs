use supermetroid::error::Error;
use supermetroid::keys;
use supermetroid::settings::Settings;

#[test]
fn defaults_gate_by_parent() {
    let settings = Settings::new();
    assert_eq!(settings.get("ammoPickups"), Ok(true));
    assert_eq!(settings.get("firstMissile"), Ok(false));
    assert_eq!(settings.get("firstPowerBomb"), Ok(true));
    assert_eq!(settings.get("noSuchToggle"), Err(Error::UnknownKey));
    assert!(!settings.has_been_modified());
}

#[test]
fn get_is_the_and_of_the_chain() {
    let mut settings = Settings::new();
    // oceanBottomMissiles < crateriaMissiles < specificMissiles < ammoPickups
    assert_eq!(settings.set("oceanBottomMissiles", true), Ok(()));
    assert_eq!(settings.get("oceanBottomMissiles"), Ok(false));
    assert_eq!(settings.set("crateriaMissiles", true), Ok(()));
    assert_eq!(settings.get("oceanBottomMissiles"), Ok(false));
    assert_eq!(settings.set("specificMissiles", true), Ok(()));
    assert_eq!(settings.get("oceanBottomMissiles"), Ok(true));
    assert_eq!(settings.get("crateriaMissiles"), Ok(true));
    assert_eq!(settings.get("oceanTopMissiles"), Ok(false));
}

#[test]
fn disabling_a_parent_gates_every_descendant() {
    let mut settings = Settings::new();
    for name in ["specificMissiles", "crateriaMissiles", "oceanBottomMissiles", "moatMissiles"] {
        assert_eq!(settings.set(name, true), Ok(()));
    }
    assert_eq!(settings.get("oceanBottomMissiles"), Ok(true));
    assert_eq!(settings.get("moatMissiles"), Ok(true));

    assert_eq!(settings.set("ammoPickups", false), Ok(()));
    for name in [
        "ammoPickups",
        "specificMissiles",
        "crateriaMissiles",
        "oceanBottomMissiles",
        "moatMissiles",
        "firstPowerBomb",
    ] {
        assert_eq!(settings.get(name), Ok(false), "{}", name);
    }
    // Their own values are untouched.
    assert_eq!(settings.lookup("oceanBottomMissiles"), Ok(true));
    assert_eq!(settings.lookup("firstPowerBomb"), Ok(true));
    // Toggles of other trees are untouched.
    assert_eq!(settings.get("variaSuit"), Ok(true));

    assert_eq!(settings.set("ammoPickups", true), Ok(()));
    assert_eq!(settings.get("oceanBottomMissiles"), Ok(true));
    assert_eq!(settings.get("moatMissiles"), Ok(true));
    assert_eq!(settings.get("firstPowerBomb"), Ok(true));
    assert_eq!(settings.get("oceanTopMissiles"), Ok(false));
}

#[test]
fn set_changes_one_toggle_only() {
    let reference = Settings::new();
    let mut settings = Settings::new();
    assert_eq!(settings.set("specificMissiles", true), Ok(()));
    for key in 0..keys::KEY_COUNT {
        let name = keys::name(key);
        if name == "specificMissiles" {
            assert_eq!(settings.lookup(name), Ok(true));
        } else {
            assert_eq!(settings.lookup(name), reference.lookup(name), "{}", name);
        }
    }
}

#[test]
fn set_of_an_unknown_name_is_refused() {
    let mut settings = Settings::new();
    assert_eq!(settings.set("specificPowerBombs", true), Err(Error::UnknownKey));
    assert!(!settings.has_been_modified());
    assert_eq!(settings.get("specificPowerBombs"), Err(Error::UnknownKey));
    assert_eq!(settings.lookup("specificPowerBombs"), Err(Error::UnknownKey));
    assert_eq!(settings.lookup(""), Err(Error::UnknownKey));
    assert_eq!(settings.lookup("ammoPickup"), Err(Error::UnknownKey));
    assert_eq!(settings.lookup("ammoPickupss"), Err(Error::UnknownKey));
    assert_eq!(settings.lookup("AmmoPickups"), Err(Error::UnknownKey));
}

#[test]
fn any_write_marks_the_settings_modified() {
    let mut settings = Settings::new();
    assert!(!settings.has_been_modified());
    // The value written is the one the toggle has already.
    assert_eq!(settings.set("ammoPickups", true), Ok(()));
    assert!(settings.has_been_modified());

    let mut settings = Settings::new();
    settings.split_on_misc_upgrades();
    assert!(settings.has_been_modified());

    let mut settings = Settings::new();
    assert!(settings.lookup_mut("ammoPickups").is_ok());
    assert!(settings.has_been_modified());

    let settings = Settings::new();
    let _ = settings.get("ammoPickups");
    let _ = settings.lookup("ammoPickups");
    let _ = settings.roots();
    assert!(!settings.has_been_modified());
}

#[test]
fn lookup_mut_writes_in_place() {
    let mut settings = Settings::new();
    match settings.lookup_mut("firstMissile") {
        Ok(flag) => {
            assert!(!*flag);
            *flag = true;
        }
        Err(_) => panic!("firstMissile is a toggle"),
    }
    assert!(settings.has_been_modified());
    assert_eq!(settings.lookup("firstMissile"), Ok(true));
    assert_eq!(settings.get("firstMissile"), Ok(true));
    assert_eq!(settings.lookup("allMissiles"), Ok(false));
}

#[test]
fn lookup_mut_of_an_unknown_name_is_refused() {
    let mut settings = Settings::new();
    assert_eq!(settings.lookup_mut("nonsense").err(), Some(Error::UnknownKey));
    assert!(!settings.has_been_modified());
}

#[test]
fn misc_upgrades_preset_turns_its_toggles_on() {
    let mut settings = Settings::new();
    assert_eq!(settings.get("morphBall"), Ok(false));
    settings.split_on_misc_upgrades();
    for name in ["miscUpgrades", "morphBall", "bomb", "springBall", "screwAttack", "grapple", "xray"]
    {
        assert_eq!(settings.lookup(name), Ok(true), "{}", name);
        assert_eq!(settings.get(name), Ok(true), "{}", name);
    }
    let reference = Settings::new();
    let named = ["miscUpgrades", "morphBall", "bomb", "springBall", "screwAttack", "grapple", "xray"];
    for key in 0..keys::KEY_COUNT {
        let name = keys::name(key);
        if !named.contains(&name) {
            assert_eq!(settings.lookup(name), reference.lookup(name), "{}", name);
        }
    }
}

#[test]
fn hundo_preset_turns_its_toggles_on() {
    let named = [
        "ammoPickups",
        "allMissiles",
        "allSupers",
        "allPowerBombs",
        "beamUpgrades",
        "chargeBeam",
        "spazer",
        "wave",
        "ice",
        "plasma",
        "bootUpgrades",
        "hiJump",
        "spaceJump",
        "speedBooster",
        "energyUpgrades",
        "allETanks",
        "reserveTanks",
        "miscUpgrades",
        "morphBall",
        "bomb",
        "springBall",
        "screwAttack",
        "grapple",
        "xray",
        "areaTransitions",
        "tubeBroken",
        "ceresEscape",
        "bosses",
        "kraid",
        "phantoon",
        "draygon",
        "ridley",
        "mb1",
        "mb2",
        "mb3",
        "miniBosses",
        "ceresRidley",
        "bombTorizo",
        "crocomire",
        "botwoon",
        "goldenTorizo",
        "babyMetroidRoom",
    ];
    let reference = Settings::new();
    let mut settings = Settings::new();
    settings.split_on_hundo();
    for key in 0..keys::KEY_COUNT {
        let name = keys::name(key);
        if named.contains(&name) {
            assert_eq!(settings.lookup(name), Ok(true), "{}", name);
        } else {
            assert_eq!(settings.lookup(name), reference.lookup(name), "{}", name);
        }
    }
    assert_eq!(settings.lookup("sporeSpawn"), Ok(false));
    assert_eq!(settings.lookup("firstMissile"), Ok(false));
}

#[test]
fn anypercent_preset_turns_its_toggles_on() {
    let named = [
        "ammoPickups",
        "specificMissiles",
        "specificSupers",
        "wreckedShipLeftSupers",
        "firstMissile",
        "firstSuper",
        "firstPowerBomb",
        "brinstarMissiles",
        "norfairMissiles",
        "chargeMissiles",
        "waveMissiles",
        "beamUpgrades",
        "chargeBeam",
        "wave",
        "ice",
        "plasma",
        "bootUpgrades",
        "hiJump",
        "speedBooster",
        "specificETanks",
        "energyUpgrades",
        "terminatorETank",
        "hiJumpETank",
        "botwoonETank",
        "miscUpgrades",
        "morphBall",
        "spaceJump",
        "bomb",
        "areaTransitions",
        "tubeBroken",
        "ceresEscape",
        "bosses",
        "kraid",
        "phantoon",
        "draygon",
        "ridley",
        "mb1",
        "mb2",
        "mb3",
        "miniBosses",
        "ceresRidley",
        "bombTorizo",
        "botwoon",
        "goldenTorizo",
        "babyMetroidRoom",
    ];
    let reference = Settings::new();
    let mut settings = Settings::new();
    settings.split_on_anypercent();
    for key in 0..keys::KEY_COUNT {
        let name = keys::name(key);
        if named.contains(&name) {
            assert_eq!(settings.lookup(name), Ok(true), "{}", name);
        } else {
            assert_eq!(settings.lookup(name), reference.lookup(name), "{}", name);
        }
    }
    assert_eq!(settings.lookup("specificBombs"), Ok(false));
    assert_eq!(settings.lookup("crocomire"), Ok(false));
    assert_eq!(settings.get("chargeMissiles"), Ok(true));
    assert_eq!(settings.get("specificPowerBombs"), Err(Error::UnknownKey));
    assert_eq!(settings.roots().len(), Settings::new().roots().len());
}

#[test]
fn presets_switch_nothing_off() {
    let mut settings = Settings::new();
    assert_eq!(settings.set("sporeSpawn", true), Ok(()));
    settings.split_on_hundo();
    settings.split_on_anypercent();
    settings.split_on_misc_upgrades();
    assert_eq!(settings.lookup("sporeSpawn"), Ok(true));
    assert_eq!(settings.lookup("goldenFour"), Ok(true));
    assert_eq!(settings.lookup("rtaFinish"), Ok(true));
}

#[test]
fn restore_brings_saved_values_back() {
    let saved = vec![
        ("firstMissile".to_string(), true),
        ("ammoPickups".to_string(), false),
        ("notAToggle".to_string(), true),
        ("firstMissile".to_string(), false),
        ("rtaFinish".to_string(), false),
        ("xray".to_string(), true),
    ];
    let settings = Settings::restore(&saved);
    assert!(!settings.has_been_modified());
    assert_eq!(settings.lookup("firstMissile"), Ok(false));
    assert_eq!(settings.lookup("ammoPickups"), Ok(false));
    assert_eq!(settings.lookup("rtaFinish"), Ok(false));
    assert_eq!(settings.lookup("xray"), Ok(true));
    assert_eq!(settings.lookup("notAToggle"), Err(Error::UnknownKey));
    assert_eq!(settings.lookup("bosses"), Ok(true));

    let untouched = Settings::restore(&Vec::new());
    let reference = Settings::new();
    for key in 0..keys::KEY_COUNT {
        let name = keys::name(key);
        assert_eq!(untouched.lookup(name), reference.lookup(name), "{}", name);
    }
}

#[test]
fn a_clone_is_independent() {
    let mut settings = Settings::new();
    let copy = settings.clone();
    assert_eq!(settings.set("firstMissile", true), Ok(()));
    assert_eq!(copy.lookup("firstMissile"), Ok(false));
    assert!(!copy.has_been_modified());
    let second = settings.clone();
    assert_eq!(second.lookup("firstMissile"), Ok(true));
    assert!(second.has_been_modified());
}
