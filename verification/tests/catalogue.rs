use supermetroid::keys;
use supermetroid::memory::Width;
use supermetroid::settings::Settings;
use supermetroid::state::SNESState;
use supermetroid::watch;

fn toggles() -> Vec<(usize, &'static str, bool, Option<&'static str>)> {
    vec![
        (keys::AMMO_PICKUPS, "ammoPickups", true, None),
        (keys::FIRST_MISSILE, "firstMissile", false, Some("ammoPickups")),
        (keys::ALL_MISSILES, "allMissiles", false, Some("ammoPickups")),
        (keys::SPECIFIC_MISSILES, "specificMissiles", false, Some("ammoPickups")),
        (keys::CRATERIA_MISSILES, "crateriaMissiles", false, Some("specificMissiles")),
        (keys::OCEAN_BOTTOM_MISSILES, "oceanBottomMissiles", false, Some("crateriaMissiles")),
        (keys::OCEAN_TOP_MISSILES, "oceanTopMissiles", false, Some("crateriaMissiles")),
        (keys::OCEAN_MIDDLE_MISSILES, "oceanMiddleMissiles", false, Some("crateriaMissiles")),
        (keys::MOAT_MISSILES, "moatMissiles", false, Some("crateriaMissiles")),
        (keys::OLD_TOURIAN_MISSILES, "oldTourianMissiles", false, Some("crateriaMissiles")),
        (keys::GAUNTLET_RIGHT_MISSILES, "gauntletRightMissiles", false, Some("crateriaMissiles")),
        (keys::GAUNTLET_LEFT_MISSILES, "gauntletLeftMissiles", false, Some("crateriaMissiles")),
        (keys::DENTAL_PLAN, "dentalPlan", false, Some("crateriaMissiles")),
        (keys::BRINSTAR_MISSILES, "brinstarMissiles", false, Some("specificMissiles")),
        (keys::EARLY_SUPER_BRIDGE_MISSILES, "earlySuperBridgeMissiles", false, Some("brinstarMissiles")),
        (keys::GREEN_BRINSTAR_RESERVE_MISSILES, "greenBrinstarReserveMissiles", false, Some("brinstarMissiles")),
        (keys::GREEN_BRINSTAR_EXTRA_RESERVE_MISSILES, "greenBrinstarExtraReserveMissiles", false, Some("brinstarMissiles")),
        (keys::BIG_PINK_TOP_MISSILES, "bigPinkTopMissiles", false, Some("brinstarMissiles")),
        (keys::CHARGE_MISSILES, "chargeMissiles", false, Some("brinstarMissiles")),
        (keys::GREEN_HILLS_MISSILES, "greenHillsMissiles", false, Some("brinstarMissiles")),
        (keys::BLUE_BRINSTAR_ETANK_MISSILES, "blueBrinstarETankMissiles", false, Some("brinstarMissiles")),
        (keys::ALPHA_MISSILES, "alphaMissiles", false, Some("brinstarMissiles")),
        (keys::BILLY_MAYS_MISSILES, "billyMaysMissiles", false, Some("brinstarMissiles")),
        (keys::BUT_WAIT_THERES_MORE_MISSILES, "butWaitTheresMoreMissiles", false, Some("brinstarMissiles")),
        (keys::RED_BRINSTAR_MISSILES, "redBrinstarMissiles", false, Some("brinstarMissiles")),
        (keys::WAREHOUSE_MISSILES, "warehouseMissiles", false, Some("brinstarMissiles")),
        (keys::NORFAIR_MISSILES, "norfairMissiles", false, Some("specificMissiles")),
        (keys::CATHEDRAL_MISSILES, "cathedralMissiles", false, Some("norfairMissiles")),
        (keys::CRUMBLE_SHAFT_MISSILES, "crumbleShaftMissiles", false, Some("norfairMissiles")),
        (keys::CROCOMIRE_ESCAPE_MISSILES, "crocomireEscapeMissiles", false, Some("norfairMissiles")),
        (keys::HI_JUMP_MISSILES, "hiJumpMissiles", false, Some("norfairMissiles")),
        (keys::POST_CROCOMIRE_MISSILES, "postCrocomireMissiles", false, Some("norfairMissiles")),
        (keys::GRAPPLE_MISSILES, "grappleMissiles", false, Some("norfairMissiles")),
        (keys::NORFAIR_RESERVE_MISSILES, "norfairReserveMissiles", false, Some("norfairMissiles")),
        (keys::GREEN_BUBBLES_MISSILES, "greenBubblesMissiles", false, Some("norfairMissiles")),
        (keys::BUBBLE_MOUNTAIN_MISSILES, "bubbleMountainMissiles", false, Some("norfairMissiles")),
        (keys::SPEED_BOOST_MISSILES, "speedBoostMissiles", false, Some("norfairMissiles")),
        (keys::WAVE_MISSILES, "waveMissiles", false, Some("norfairMissiles")),
        (keys::GOLD_TORIZO_MISSILES, "goldTorizoMissiles", false, Some("norfairMissiles")),
        (keys::MICKEY_MOUSE_MISSILES, "mickeyMouseMissiles", false, Some("norfairMissiles")),
        (keys::LOWER_NORFAIR_SPRING_MAZE_MISSILES, "lowerNorfairSpringMazeMissiles", false, Some("norfairMissiles")),
        (keys::THREE_MUSKETEERS_MISSILES, "threeMusketeersMissiles", false, Some("norfairMissiles")),
        (keys::WRECKED_SHIP_MISSILES, "wreckedShipMissiles", false, Some("specificMissiles")),
        (keys::WRECKED_SHIP_MAIN_SHAFT_MISSILES, "wreckedShipMainShaftMissiles", false, Some("wreckedShipMissiles")),
        (keys::BOWLING_MISSILES, "bowlingMissiles", false, Some("wreckedShipMissiles")),
        (keys::ATTIC_MISSILES, "atticMissiles", false, Some("wreckedShipMissiles")),
        (keys::MARIDIA_MISSILES, "maridiaMissiles", false, Some("specificMissiles")),
        (keys::MAIN_STREET_MISSILES, "mainStreetMissiles", false, Some("maridiaMissiles")),
        (keys::MAMA_TURTLE_MISSILES, "mamaTurtleMissiles", false, Some("maridiaMissiles")),
        (keys::WATERING_HOLE_MISSILES, "wateringHoleMissiles", false, Some("maridiaMissiles")),
        (keys::BEACH_MISSILES, "beachMissiles", false, Some("maridiaMissiles")),
        (keys::LEFT_SAND_PIT_MISSILES, "leftSandPitMissiles", false, Some("maridiaMissiles")),
        (keys::RIGHT_SAND_PIT_MISSILES, "rightSandPitMissiles", false, Some("maridiaMissiles")),
        (keys::AQUEDUCT_MISSILES, "aqueductMissiles", false, Some("maridiaMissiles")),
        (keys::PRE_DRAYGON_MISSILES, "preDraygonMissiles", false, Some("maridiaMissiles")),
        (keys::FIRST_SUPER, "firstSuper", false, Some("ammoPickups")),
        (keys::ALL_SUPERS, "allSupers", false, Some("ammoPickups")),
        (keys::SPECIFIC_SUPERS, "specificSupers", false, Some("ammoPickups")),
        (keys::CLIMB_SUPERS, "climbSupers", false, Some("specificSupers")),
        (keys::SPORE_SPAWN_SUPERS, "sporeSpawnSupers", false, Some("specificSupers")),
        (keys::EARLY_SUPERS, "earlySupers", false, Some("specificSupers")),
        (keys::ETACOON_SUPERS, "etacoonSupers", false, Some("specificSupers")),
        (keys::GOLD_TORIZO_SUPERS, "goldTorizoSupers", false, Some("specificSupers")),
        (keys::WRECKED_SHIP_LEFT_SUPERS, "wreckedShipLeftSupers", false, Some("specificSupers")),
        (keys::WRECKED_SHIP_RIGHT_SUPERS, "wreckedShipRightSupers", false, Some("specificSupers")),
        (keys::CRAB_SUPERS, "crabSupers", false, Some("specificSupers")),
        (keys::WATERING_HOLE_SUPERS, "wateringHoleSupers", false, Some("specificSupers")),
        (keys::AQUEDUCT_SUPERS, "aqueductSupers", false, Some("specificSupers")),
        (keys::FIRST_POWER_BOMB, "firstPowerBomb", true, Some("ammoPickups")),
        (keys::ALL_POWER_BOMBS, "allPowerBombs", false, Some("ammoPickups")),
        (keys::SPECIFIC_BOMBS, "specificBombs", false, Some("ammoPickups")),
        (keys::LANDING_SITE_BOMBS, "landingSiteBombs", false, Some("specificBombs")),
        (keys::ETACOON_BOMBS, "etacoonBombs", false, Some("specificBombs")),
        (keys::PINK_BRINSTAR_BOMBS, "pinkBrinstarBombs", false, Some("specificBombs")),
        (keys::BLUE_BRINSTAR_BOMBS, "blueBrinstarBombs", false, Some("specificBombs")),
        (keys::ALPHA_BOMBS, "alphaBombs", false, Some("specificBombs")),
        (keys::BETA_BOMBS, "betaBombs", false, Some("specificBombs")),
        (keys::CROCOMIRE_BOMBS, "crocomireBombs", false, Some("specificBombs")),
        (keys::LOWER_NORFAIR_ESCAPE_BOMBS, "lowerNorfairEscapeBombs", false, Some("specificBombs")),
        (keys::SHAME_BOMBS, "shameBombs", false, Some("specificBombs")),
        (keys::RIGHT_SAND_PIT_BOMBS, "rightSandPitBombs", false, Some("specificBombs")),
        (keys::SUIT_UPGRADES, "suitUpgrades", true, None),
        (keys::VARIA_SUIT, "variaSuit", true, Some("suitUpgrades")),
        (keys::GRAV_SUIT, "gravSuit", true, Some("suitUpgrades")),
        (keys::BEAM_UPGRADES, "beamUpgrades", true, None),
        (keys::CHARGE_BEAM, "chargeBeam", false, Some("beamUpgrades")),
        (keys::SPAZER, "spazer", false, Some("beamUpgrades")),
        (keys::WAVE, "wave", true, Some("beamUpgrades")),
        (keys::ICE, "ice", false, Some("beamUpgrades")),
        (keys::PLASMA, "plasma", false, Some("beamUpgrades")),
        (keys::BOOT_UPGRADES, "bootUpgrades", false, None),
        (keys::HI_JUMP, "hiJump", false, Some("bootUpgrades")),
        (keys::SPACE_JUMP, "spaceJump", false, Some("bootUpgrades")),
        (keys::SPEED_BOOSTER, "speedBooster", false, Some("bootUpgrades")),
        (keys::ENERGY_UPGRADES, "energyUpgrades", false, None),
        (keys::FIRST_ETANK, "firstETank", false, Some("energyUpgrades")),
        (keys::ALL_ETANKS, "allETanks", false, Some("energyUpgrades")),
        (keys::SPECIFIC_ETANKS, "specificETanks", false, Some("energyUpgrades")),
        (keys::GAUNTLET_ETANK, "gauntletETank", false, Some("specificETanks")),
        (keys::TERMINATOR_ETANK, "terminatorETank", false, Some("specificETanks")),
        (keys::CEILING_ETANK, "ceilingETank", false, Some("specificETanks")),
        (keys::ETECOONS_ETANK, "etecoonsETank", false, Some("specificETanks")),
        (keys::WATERWAY_ETANK, "waterwayETank", false, Some("specificETanks")),
        (keys::WAVE_GATE_ETANK, "waveGateETank", false, Some("specificETanks")),
        (keys::KRAID_ETANK, "kraidETank", false, Some("specificETanks")),
        (keys::CROCOMIRE_ETANK, "crocomireETank", false, Some("specificETanks")),
        (keys::HI_JUMP_ETANK, "hiJumpETank", false, Some("specificETanks")),
        (keys::RIDLEY_ETANK, "ridleyETank", false, Some("specificETanks")),
        (keys::FIREFLEA_ETANK, "firefleaETank", false, Some("specificETanks")),
        (keys::WRECKED_SHIP_ETANK, "wreckedShipETank", false, Some("specificETanks")),
        (keys::TATORI_ETANK, "tatoriETank", false, Some("specificETanks")),
        (keys::BOTWOON_ETANK, "botwoonETank", false, Some("specificETanks")),
        (keys::RESERVE_TANKS, "reserveTanks", false, Some("energyUpgrades")),
        (keys::SPECIFIC_RTANKS, "specificRTanks", false, Some("energyUpgrades")),
        (keys::BRINSTAR_RESERVE, "brinstarReserve", false, Some("specificRTanks")),
        (keys::NORFAIR_RESERVE, "norfairReserve", false, Some("specificRTanks")),
        (keys::WRECKED_SHIP_RESERVE, "wreckedShipReserve", false, Some("specificRTanks")),
        (keys::MARIDIA_RESERVE, "maridiaReserve", false, Some("specificRTanks")),
        (keys::MISC_UPGRADES, "miscUpgrades", false, None),
        (keys::MORPH_BALL, "morphBall", false, Some("miscUpgrades")),
        (keys::BOMB, "bomb", false, Some("miscUpgrades")),
        (keys::SPRING_BALL, "springBall", false, Some("miscUpgrades")),
        (keys::SCREW_ATTACK, "screwAttack", false, Some("miscUpgrades")),
        (keys::GRAPPLE, "grapple", false, Some("miscUpgrades")),
        (keys::XRAY, "xray", false, Some("miscUpgrades")),
        (keys::AREA_TRANSITIONS, "areaTransitions", true, None),
        (keys::MINI_BOSS_ROOMS, "miniBossRooms", false, Some("areaTransitions")),
        (keys::BOSS_ROOMS, "bossRooms", false, Some("areaTransitions")),
        (keys::ELEVATOR_TRANSITIONS, "elevatorTransitions", false, Some("areaTransitions")),
        (keys::CERES_ESCAPE, "ceresEscape", false, Some("areaTransitions")),
        (keys::WRECKED_SHIP_ENTRANCE, "wreckedShipEntrance", false, Some("areaTransitions")),
        (keys::RED_TOWER_MIDDLE_ENTRANCE, "redTowerMiddleEntrance", false, Some("areaTransitions")),
        (keys::RED_TOWER_BOTTOM_ENTRANCE, "redTowerBottomEntrance", false, Some("areaTransitions")),
        (keys::KRAIDS_LAIR, "kraidsLair", false, Some("areaTransitions")),
        (keys::RISING_TIDE_ENTRANCE, "risingTideEntrance", false, Some("areaTransitions")),
        (keys::ATTIC_EXIT, "atticExit", false, Some("areaTransitions")),
        (keys::TUBE_BROKEN, "tubeBroken", false, Some("areaTransitions")),
        (keys::CAC_EXIT, "cacExit", false, Some("areaTransitions")),
        (keys::TOILET, "toilet", false, Some("areaTransitions")),
        (keys::KRONIC_BOOST, "kronicBoost", false, Some("areaTransitions")),
        (keys::LOWER_NORFAIR_ENTRANCE, "lowerNorfairEntrance", false, Some("areaTransitions")),
        (keys::WRITG, "writg", false, Some("areaTransitions")),
        (keys::RED_KI_SHAFT, "redKiShaft", false, Some("areaTransitions")),
        (keys::METAL_PIRATES, "metalPirates", false, Some("areaTransitions")),
        (keys::LOWER_NORFAIR_SPRING_MAZE, "lowerNorfairSpringMaze", false, Some("areaTransitions")),
        (keys::LOWER_NORFAIR_EXIT, "lowerNorfairExit", false, Some("areaTransitions")),
        (keys::GOLDEN_FOUR, "goldenFour", true, Some("areaTransitions")),
        (keys::TOURIAN_ENTRANCE, "tourianEntrance", false, Some("areaTransitions")),
        (keys::METROIDS, "metroids", false, Some("areaTransitions")),
        (keys::BABY_METROID_ROOM, "babyMetroidRoom", false, Some("areaTransitions")),
        (keys::ESCAPE_CLIMB, "escapeClimb", false, Some("areaTransitions")),
        (keys::MINI_BOSSES, "miniBosses", false, None),
        (keys::CERES_RIDLEY, "ceresRidley", false, Some("miniBosses")),
        (keys::BOMB_TORIZO, "bombTorizo", false, Some("miniBosses")),
        (keys::SPORE_SPAWN, "sporeSpawn", false, Some("miniBosses")),
        (keys::CROCOMIRE, "crocomire", false, Some("miniBosses")),
        (keys::BOTWOON, "botwoon", false, Some("miniBosses")),
        (keys::GOLDEN_TORIZO, "goldenTorizo", false, Some("miniBosses")),
        (keys::BOSSES, "bosses", true, None),
        (keys::KRAID, "kraid", false, Some("bosses")),
        (keys::PHANTOON, "phantoon", false, Some("bosses")),
        (keys::DRAYGON, "draygon", false, Some("bosses")),
        (keys::RIDLEY, "ridley", true, Some("bosses")),
        (keys::MB1, "mb1", false, Some("bosses")),
        (keys::MB2, "mb2", true, Some("bosses")),
        (keys::MB3, "mb3", false, Some("bosses")),
        (keys::RTA_FINISH, "rtaFinish", true, None),
        (keys::IGT_FINISH, "igtFinish", false, None),
        (keys::SPORE_SPAWN_RTA_FINISH, "sporeSpawnRTAFinish", false, None),
        (keys::HUNDRED_MISSILE_RTA_FINISH, "hundredMissileRTAFinish", false, None),
    ]
}

fn watched_values() -> Vec<(usize, &'static str, u32, Width)> {
    vec![
        (watch::CONTROLLER, "controller", 0x008B, Width::Word),
        (watch::ROOM_ID, "roomID", 0x079B, Width::Word),
        (watch::ENEMY_HP, "enemyHP", 0x0F8C, Width::Word),
        (watch::SHIP_AI, "shipAI", 0x0FB2, Width::Word),
        (watch::MOTHER_BRAIN_HP, "motherBrainHP", 0x0FCC, Width::Word),
        (watch::MAP_IN_USE, "mapInUse", 0x079F, Width::Byte),
        (watch::GAME_STATE, "gameState", 0x0998, Width::Byte),
        (watch::UNLOCKED_EQUIPS2, "unlockedEquips2", 0x09A4, Width::Byte),
        (watch::UNLOCKED_EQUIPS, "unlockedEquips", 0x09A5, Width::Byte),
        (watch::UNLOCKED_BEAMS, "unlockedBeams", 0x09A8, Width::Byte),
        (watch::UNLOCKED_CHARGE, "unlockedCharge", 0x09A9, Width::Byte),
        (watch::MAX_ENERGY, "maxEnergy", 0x09C4, Width::Word),
        (watch::MAX_MISSILES, "maxMissiles", 0x09C8, Width::Byte),
        (watch::MAX_SUPERS, "maxSupers", 0x09CC, Width::Byte),
        (watch::MAX_POWER_BOMBS, "maxPowerBombs", 0x09D0, Width::Byte),
        (watch::MAX_RESERVE, "maxReserve", 0x09D4, Width::Word),
        (watch::IGT_FRAMES, "igtFrames", 0x09DA, Width::Byte),
        (watch::IGT_SECONDS, "igtSeconds", 0x09DC, Width::Byte),
        (watch::IGT_MINUTES, "igtMinutes", 0x09DE, Width::Byte),
        (watch::IGT_HOURS, "igtHours", 0x09E0, Width::Byte),
        (watch::PLAYER_STATE, "playerState", 0x0A28, Width::Byte),
        (watch::EVENT_FLAGS, "eventFlags", 0xD821, Width::Byte),
        (watch::CRATERIA_BOSSES, "crateriaBosses", 0xD828, Width::Byte),
        (watch::BRINSTAR_BOSSES, "brinstarBosses", 0xD829, Width::Byte),
        (watch::NORFAIR_BOSSES, "norfairBosses", 0xD82A, Width::Byte),
        (watch::WRECKED_SHIP_BOSSES, "wreckedShipBosses", 0xD82B, Width::Byte),
        (watch::MARIDIA_BOSSES, "maridiaBosses", 0xD82C, Width::Byte),
        (watch::TOURIAN_BOSSES, "tourianBosses", 0xD82D, Width::Byte),
        (watch::CERES_BOSSES, "ceresBosses", 0xD82E, Width::Byte),
        (watch::CRATERIA_ITEMS, "crateriaItems", 0xD870, Width::Byte),
        (watch::BRINTERIA_ITEMS, "brinteriaItems", 0xD871, Width::Byte),
        (watch::BRINSTAR_ITEMS2, "brinstarItems2", 0xD872, Width::Byte),
        (watch::BRINSTAR_ITEMS3, "brinstarItems3", 0xD873, Width::Byte),
        (watch::BRINSTAR_ITEMS4, "brinstarItems4", 0xD874, Width::Byte),
        (watch::BRINSTAR_ITEMS5, "brinstarItems5", 0xD875, Width::Byte),
        (watch::NORFAIR_ITEMS1, "norfairItems1", 0xD876, Width::Byte),
        (watch::NORFAIR_ITEMS2, "norfairItems2", 0xD877, Width::Byte),
        (watch::NORFAIR_ITEMS3, "norfairItems3", 0xD878, Width::Byte),
        (watch::NORFAIR_ITEMS4, "norfairItems4", 0xD879, Width::Byte),
        (watch::NORFAIR_ITEMS5, "norfairItems5", 0xD87A, Width::Byte),
        (watch::WRECKED_SHIP_ITEMS, "wreckedShipItems", 0xD880, Width::Byte),
        (watch::MARIDIA_ITEMS1, "maridiaItems1", 0xD881, Width::Byte),
        (watch::MARIDIA_ITEMS2, "maridiaItems2", 0xD882, Width::Byte),
        (watch::MARIDIA_ITEMS3, "maridiaItems3", 0xD883, Width::Byte),
    ]
}

#[test]
fn every_toggle_is_found_by_its_name() {
    let toggles = toggles();
    assert_eq!(toggles.len(), keys::KEY_COUNT);
    for (key, name, _, _) in toggles {
        assert_eq!(keys::find(name), Some(key), "{}", name);
        assert_eq!(keys::name(key), name);
    }
}

#[test]
fn every_toggle_starts_with_its_value() {
    let settings = Settings::new();
    for (key, name, value, _) in toggles() {
        assert_eq!(keys::initial(key), value, "{}", name);
        assert_eq!(settings.lookup(name), Ok(value), "{}", name);
    }
}

#[test]
fn every_toggle_stands_below_its_parent() {
    for (key, name, _, parent) in toggles() {
        let above = keys::parent(key).map(|p| keys::name(p));
        assert_eq!(above, parent, "{}", name);
    }
}

#[test]
fn a_new_configuration_activates_what_the_chain_allows() {
    let toggles = toggles();
    let settings = Settings::new();
    for (key, name, value, _) in &toggles {
        let mut expected = *value;
        let mut at = *key;
        while let Some(p) = toggles[at].3 {
            at = toggles.iter().position(|t| t.1 == p).unwrap();
            expected = expected && toggles[at].2;
        }
        assert_eq!(settings.get(name), Ok(expected), "{}", name);
        assert_eq!(settings.is_active(*key), expected, "{}", name);
    }
}

#[test]
fn roots_are_the_toggles_without_parent() {
    let settings = Settings::new();
    let expected: Vec<String> = vec![
        "ammoPickups".to_string(),
        "suitUpgrades".to_string(),
        "beamUpgrades".to_string(),
        "bootUpgrades".to_string(),
        "energyUpgrades".to_string(),
        "miscUpgrades".to_string(),
        "areaTransitions".to_string(),
        "miniBosses".to_string(),
        "bosses".to_string(),
        "rtaFinish".to_string(),
        "igtFinish".to_string(),
        "sporeSpawnRTAFinish".to_string(),
        "hundredMissileRTAFinish".to_string(),
    ];
    assert_eq!(settings.roots(), expected);
}

#[test]
fn children_are_the_toggles_directly_below() {
    let settings = Settings::new();
    let toggles = toggles();
    for (_, name, _, _) in &toggles {
        let expected: Vec<String> =
            toggles.iter().filter(|t| t.3 == Some(*name)).map(|t| t.1.to_string()).collect();
        assert_eq!(settings.children(name), expected, "{}", name);
    }
    assert_eq!(
        settings.children("suitUpgrades"),
        vec!["variaSuit".to_string(), "gravSuit".to_string()]
    );
    assert_eq!(settings.children("firstMissile"), Vec::<String>::new());
    assert_eq!(settings.children("noSuchToggle"), Vec::<String>::new());
}

#[test]
fn every_watched_value_is_found_by_its_name() {
    let watched = watched_values();
    assert_eq!(watched.len(), watch::WATCH_COUNT);
    let state = SNESState::new();
    for (row, name, address, width) in watched {
        assert_eq!(watch::find_watch(name), Some(row), "{}", name);
        let watcher = state.watch(row);
        assert_eq!(watcher.address, address, "{}", name);
        assert_eq!(watcher.width, width, "{}", name);
        assert_eq!(state.lookup(name), Ok((0, 0)), "{}", name);
    }
}
