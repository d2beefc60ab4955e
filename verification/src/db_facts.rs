//! What holds of every entry of the database tables, checked entry by
//! entry: names and categories are never empty, no vendor is filed under
//! "Cable" or "Unknown", a device filed under "Cable" is also a known cable,
//! cables have a rated power within 15 to 240 W and a known construction,
//! and no two cables share a VID:PID.

use crate::device_db::{CABLE_TABLE, DEVICE_TABLE, VENDOR_TABLE};
use crate::devices::{cable_map, device_key, known_cables};
use vstd::prelude::*;

verus! {

/// A well-formed cable entry: a name, a speed, a rated power of 15 to 240 W
/// and a construction that is Passive, Active or Hub.
pub open spec fn cable_entry_ok(e: (u16, u16, &'static str, &'static str, u32, &'static str)) -> bool {
    &&& e.2@.len() > 0
    &&& e.3@.len() > 0
    &&& (e.5@ == "Passive"@ || e.5@ == "Active"@ || e.5@ == "Hub"@)
    &&& 15 <= e.4 <= 240
}

/// A well-formed vendor entry: a name and a category, which is neither
/// "Cable" nor "Unknown".
pub open spec fn vendor_entry_ok(e: (u16, &'static str, &'static str)) -> bool {
    &&& e.1@.len() > 0
    &&& e.2@.len() > 0
    &&& e.2@ != "Cable"@
    &&& e.2@ != "Unknown"@
}

/// A well-formed device entry: a name and a category other than "Unknown";
/// a device filed under "Cable" is a known cable too.
pub open spec fn device_entry_ok(e: (u16, u16, &'static str, &'static str)) -> bool {
    &&& e.2@.len() > 0
    &&& e.3@.len() > 0
    &&& e.3@ != "Unknown"@
    &&& e.3@ == "Cable"@ ==> known_cables().contains_key(device_key(e.0, e.1))
}

/// The cable map has a key for every cable entry.
pub proof fn lemma_cable_map_has_entry(
    entries: Seq<(u16, u16, &'static str, &'static str, u32, &'static str)>,
    j: int,
)
    requires
        0 <= j < entries.len(),
    ensures
        cable_map(entries).contains_key(device_key(entries[j].0, entries[j].1)),
    decreases entries.len(),
{
    if j < entries.len() - 1 {
        lemma_cable_map_has_entry(entries.drop_last(), j);
        assert(entries.drop_last()[j] == entries[j]);
    }
}

/// Every cable entry is well formed.
#[verifier::rlimit(100)]
pub proof fn lemma_cable_entries()
    ensures
        forall|k: int| 0 <= k < CABLE_TABLE@.len() ==> cable_entry_ok(#[trigger] CABLE_TABLE@[k]),
{
    assert forall|k: int| 0 <= k < CABLE_TABLE@.len() implies cable_entry_ok(#[trigger] CABLE_TABLE@[k]) by {
        if k < 34 {
            if k < 17 {
                if k < 8 {
                    if k < 4 {
                        if k < 2 {
                            if k < 1 {
                                assert(k == 0);
                                reveal_strlit("Apple USB-C Cable (USB 2.0)");
                                reveal_strlit("USB 2.0 (480 Mbps)");
                            } else {
                                assert(k == 1);
                                reveal_strlit("Apple USB-C Charge Cable (1m)");
                                reveal_strlit("USB 2.0 (480 Mbps)");
                            }
                        } else {
                            if k < 3 {
                                assert(k == 2);
                                reveal_strlit("Apple USB-C Charge Cable (2m)");
                                reveal_strlit("USB 2.0 (480 Mbps)");
                            } else {
                                assert(k == 3);
                                reveal_strlit("Apple Thunderbolt Cable");
                                reveal_strlit("Thunderbolt 3/4 (40 Gbps)");
                            }
                        }
                    } else {
                        if k < 6 {
                            if k < 5 {
                                assert(k == 4);
                                reveal_strlit("Apple Thunderbolt 4 Pro (1m)");
                                reveal_strlit("Thunderbolt 4 (40 Gbps)");
                            } else {
                                assert(k == 5);
                                reveal_strlit("Apple Thunderbolt 4 Pro (1.8m)");
                                reveal_strlit("Thunderbolt 4 (40 Gbps)");
                            }
                        } else {
                            if k < 7 {
                                assert(k == 6);
                                reveal_strlit("Apple USB-C Cable (2021)");
                                reveal_strlit("USB 2.0 (480 Mbps)");
                            } else {
                                assert(k == 7);
                                reveal_strlit("Apple USB-C 3.0 Cable");
                                reveal_strlit("USB 3.1 Gen 1 (5 Gbps)");
                            }
                        }
                    }
                } else {
                    if k < 12 {
                        if k < 10 {
                            if k < 9 {
                                assert(k == 8);
                                reveal_strlit("Apple USB-C Cable (USB 2.0)");
                                reveal_strlit("USB 2.0 (480 Mbps)");
                            } else {
                                assert(k == 9);
                                reveal_strlit("Apple USB-C Charge Cable (1.5m)");
                                reveal_strlit("USB 2.0 (480 Mbps)");
                            }
                        } else {
                            if k < 11 {
                                assert(k == 10);
                                reveal_strlit("Anker PowerLine USB-C (60W)");
                                reveal_strlit("USB 3.1 Gen 1 (5 Gbps)");
                            } else {
                                assert(k == 11);
                                reveal_strlit("Anker PowerLine USB-C (100W)");
                                reveal_strlit("USB 3.1 Gen 2 (10 Gbps)");
                            }
                        }
                    } else {
                        if k < 14 {
                            if k < 13 {
                                assert(k == 12);
                                reveal_strlit("Anker PowerLine III USB-C (240W EPR)");
                                reveal_strlit("USB 3.2 Gen 2 (20 Gbps)");
                            } else {
                                assert(k == 13);
                                reveal_strlit("Anker Thunderbolt 4 Cable (0.8m)");
                                reveal_strlit("Thunderbolt 4 (40 Gbps)");
                            }
                        } else {
                            if k < 15 {
                                assert(k == 14);
                                reveal_strlit("Anker Thunderbolt 4 Cable (2m)");
                                reveal_strlit("Thunderbolt 4 (40 Gbps)");
                            } else {
                                if k < 16 {
                                    assert(k == 15);
                                    reveal_strlit("Anker USB4 Cable (40Gbps)");
                                    reveal_strlit("USB4 Gen 3 (40 Gbps)");
                                } else {
                                    assert(k == 16);
                                    reveal_strlit("Anker Zolo USB-C (240W)");
                                    reveal_strlit("USB 3.2 Gen 2 (20 Gbps)");
                                }
                            }
                        }
                    }
                }
            } else {
                if k < 25 {
                    if k < 21 {
                        if k < 19 {
                            if k < 18 {
                                assert(k == 17);
                                reveal_strlit("Xiaomi USB-C Charging Cable (3A)");
                                reveal_strlit("USB 2.0 (480 Mbps)");
                            } else {
                                assert(k == 18);
                                reveal_strlit("Xiaomi USB-C to USB-C Cable (5A)");
                                reveal_strlit("USB 2.0 (480 Mbps)");
                            }
                        } else {
                            if k < 20 {
                                assert(k == 19);
                                reveal_strlit("POCO X7 USB-C Cable");
                                reveal_strlit("USB 2.0 (480 Mbps)");
                            } else {
                                assert(k == 20);
                                reveal_strlit("Xiaomi USB-C 3.0 Cable (10 Gbps)");
                                reveal_strlit("USB 3.2 Gen 2 (10 Gbps)");
                            }
                        }
                    } else {
                        if k < 23 {
                            if k < 22 {
                                assert(k == 21);
                                reveal_strlit("Belkin USB-C Cable (60W)");
                                reveal_strlit("USB 3.1 Gen 1 (5 Gbps)");
                            } else {
                                assert(k == 22);
                                reveal_strlit("Belkin USB-C Cable (100W)");
                                reveal_strlit("USB 3.1 Gen 2 (10 Gbps)");
                            }
                        } else {
                            if k < 24 {
                                assert(k == 23);
                                reveal_strlit("Belkin Thunderbolt 4 Pro Cable");
                                reveal_strlit("Thunderbolt 4 (40 Gbps)");
                            } else {
                                assert(k == 24);
                                reveal_strlit("Belkin USB4 Cable (240W)");
                                reveal_strlit("USB4 Gen 3 (40 Gbps)");
                            }
                        }
                    }
                } else {
                    if k < 29 {
                        if k < 27 {
                            if k < 26 {
                                assert(k == 25);
                                reveal_strlit("CalDigit Thunderbolt 4 Cable (0.8m)");
                                reveal_strlit("Thunderbolt 4 (40 Gbps)");
                            } else {
                                assert(k == 26);
                                reveal_strlit("CalDigit Thunderbolt 4 Cable (2m)");
                                reveal_strlit("Thunderbolt 4 (40 Gbps)");
                            }
                        } else {
                            if k < 28 {
                                assert(k == 27);
                                reveal_strlit("UGREEN USB-C Cable (60W)");
                                reveal_strlit("USB 2.0 (480 Mbps)");
                            } else {
                                assert(k == 28);
                                reveal_strlit("UGREEN USB-C Cable (100W)");
                                reveal_strlit("USB 3.1 Gen 2 (10 Gbps)");
                            }
                        }
                    } else {
                        if k < 31 {
                            if k < 30 {
                                assert(k == 29);
                                reveal_strlit("UGREEN USB-C Cable (240W EPR)");
                                reveal_strlit("USB 3.2 Gen 2 (20 Gbps)");
                            } else {
                                assert(k == 30);
                                reveal_strlit("UGREEN USB4 Cable (40Gbps/240W)");
                                reveal_strlit("USB4 Gen 3 (40 Gbps)");
                            }
                        } else {
                            if k < 32 {
                                assert(k == 31);
                                reveal_strlit("UGREEN Thunderbolt 4 Cable");
                                reveal_strlit("Thunderbolt 4 (40 Gbps)");
                            } else {
                                if k < 33 {
                                    assert(k == 32);
                                    reveal_strlit("Samsung USB-C Cable (SuperSpeed)");
                                    reveal_strlit("USB 3.1 Gen 1 (5 Gbps)");
                                } else {
                                    assert(k == 33);
                                    reveal_strlit("Samsung USB-C to USB-C (25W)");
                                    reveal_strlit("USB 2.0 (480 Mbps)");
                                }
                            }
                        }
                    }
                }
            }
        } else {
            if k < 51 {
                if k < 42 {
                    if k < 38 {
                        if k < 36 {
                            if k < 35 {
                                assert(k == 34);
                                reveal_strlit("Baseus USB-C Cable (100W)");
                                reveal_strlit("USB 3.1 Gen 1 (5 Gbps)");
                            } else {
                                assert(k == 35);
                                reveal_strlit("Baseus USB-C Cable (240W EPR)");
                                reveal_strlit("USB 3.2 Gen 2 (20 Gbps)");
                            }
                        } else {
                            if k < 37 {
                                assert(k == 36);
                                reveal_strlit("Baseus USB4 Cable (240W)");
                                reveal_strlit("USB4 Gen 3 (40 Gbps)");
                            } else {
                                assert(k == 37);
                                reveal_strlit("Satechi USB-C Cable (100W)");
                                reveal_strlit("USB 3.1 Gen 2 (10 Gbps)");
                            }
                        }
                    } else {
                        if k < 40 {
                            if k < 39 {
                                assert(k == 38);
                                reveal_strlit("Satechi Thunderbolt 4 Cable");
                                reveal_strlit("Thunderbolt 4 (40 Gbps)");
                            } else {
                                assert(k == 39);
                                reveal_strlit("Cable Matters USB-C (100W)");
                                reveal_strlit("USB 3.1 Gen 2 (10 Gbps)");
                            }
                        } else {
                            if k < 41 {
                                assert(k == 40);
                                reveal_strlit("Cable Matters USB-C (240W)");
                                reveal_strlit("USB 3.2 Gen 2 (20 Gbps)");
                            } else {
                                assert(k == 41);
                                reveal_strlit("Cable Matters Thunderbolt 4 (0.8m)");
                                reveal_strlit("Thunderbolt 4 (40 Gbps)");
                            }
                        }
                    }
                } else {
                    if k < 46 {
                        if k < 44 {
                            if k < 43 {
                                assert(k == 42);
                                reveal_strlit("Cable Matters Thunderbolt 4 (2m)");
                                reveal_strlit("Thunderbolt 4 (40 Gbps)");
                            } else {
                                assert(k == 43);
                                reveal_strlit("Monoprice USB-C (100W)");
                                reveal_strlit("USB 3.1 Gen 2 (10 Gbps)");
                            }
                        } else {
                            if k < 45 {
                                assert(k == 44);
                                reveal_strlit("Monoprice USB4 (240W)");
                                reveal_strlit("USB4 Gen 3 (40 Gbps)");
                            } else {
                                assert(k == 45);
                                reveal_strlit("StarTech USB-C (60W)");
                                reveal_strlit("USB 3.1 Gen 1 (5 Gbps)");
                            }
                        }
                    } else {
                        if k < 48 {
                            if k < 47 {
                                assert(k == 46);
                                reveal_strlit("StarTech USB-C (100W)");
                                reveal_strlit("USB 3.1 Gen 2 (10 Gbps)");
                            } else {
                                assert(k == 47);
                                reveal_strlit("Intel Thunderbolt 3 Cable (0.5m)");
                                reveal_strlit("Thunderbolt 3 (40 Gbps)");
                            }
                        } else {
                            if k < 49 {
                                assert(k == 48);
                                reveal_strlit("Intel Thunderbolt 3 Cable (1m)");
                                reveal_strlit("Thunderbolt 3 (40 Gbps)");
                            } else {
                                if k < 50 {
                                    assert(k == 49);
                                    reveal_strlit("Intel Thunderbolt 3 Cable (2m)");
                                    reveal_strlit("Thunderbolt 3 (40 Gbps)");
                                } else {
                                    assert(k == 50);
                                    reveal_strlit("Luxshare USB-C Cable");
                                    reveal_strlit("USB 3.2 Gen 1 (5 Gbps)");
                                }
                            }
                        }
                    }
                }
            } else {
                if k < 59 {
                    if k < 55 {
                        if k < 53 {
                            if k < 52 {
                                assert(k == 51);
                                reveal_strlit("Luxshare USB-C Cable (240W)");
                                reveal_strlit("USB 3.2 Gen 2 (20 Gbps)");
                            } else {
                                assert(k == 52);
                                reveal_strlit("Luxshare USB4 Cable");
                                reveal_strlit("USB4 Gen 3 (40 Gbps)");
                            }
                        } else {
                            if k < 54 {
                                assert(k == 53);
                                reveal_strlit("Luxshare Thunderbolt 4 Cable");
                                reveal_strlit("Thunderbolt 4 (40 Gbps)");
                            } else {
                                assert(k == 54);
                                reveal_strlit("Oculus/Meta Quest Link Cable (5m)");
                                reveal_strlit("USB 3.2 Gen 1 (5 Gbps)");
                            }
                        }
                    } else {
                        if k < 57 {
                            if k < 56 {
                                assert(k == 55);
                                reveal_strlit("Microchip USB 3.0 Hub (embedded)");
                                reveal_strlit("USB 3.0 (5 Gbps)");
                            } else {
                                assert(k == 56);
                                reveal_strlit("VIA VL812 USB 3.0 Hub");
                                reveal_strlit("USB 3.0 (5 Gbps)");
                            }
                        } else {
                            if k < 58 {
                                assert(k == 57);
                                reveal_strlit("Genesys GL3523 USB-C Hub");
                                reveal_strlit("USB 3.1 Gen 1 (5 Gbps)");
                            } else {
                                assert(k == 58);
                                reveal_strlit("Generic USB 2.0 Cable");
                                reveal_strlit("USB 2.0 (480 Mbps)");
                            }
                        }
                    }
                } else {
                    if k < 63 {
                        if k < 61 {
                            if k < 60 {
                                assert(k == 59);
                                reveal_strlit("Generic USB 3.0 Cable (5Gbps)");
                                reveal_strlit("USB 3.0 (5 Gbps)");
                            } else {
                                assert(k == 60);
                                reveal_strlit("Generic USB 3.1 Gen 2 Cable (10Gbps)");
                                reveal_strlit("USB 3.1 Gen 2 (10 Gbps)");
                            }
                        } else {
                            if k < 62 {
                                assert(k == 61);
                                reveal_strlit("Generic USB 3.2 Gen 2 Cable (20Gbps)");
                                reveal_strlit("USB 3.2 Gen 2x2 (20 Gbps)");
                            } else {
                                assert(k == 62);
                                reveal_strlit("Generic USB4 Cable (40Gbps)");
                                reveal_strlit("USB4 Gen 3 (40 Gbps)");
                            }
                        }
                    } else {
                        if k < 65 {
                            if k < 64 {
                                assert(k == 63);
                                reveal_strlit("Generic Thunderbolt 3 Cable");
                                reveal_strlit("Thunderbolt 3 (40 Gbps)");
                            } else {
                                assert(k == 64);
                                reveal_strlit("Generic Thunderbolt 4 Cable");
                                reveal_strlit("Thunderbolt 4 (40 Gbps)");
                            }
                        } else {
                            if k < 66 {
                                assert(k == 65);
                                reveal_strlit("Generic USB-C Charge Cable (60W)");
                                reveal_strlit("USB 2.0 (480 Mbps)");
                            } else {
                                if k < 67 {
                                    assert(k == 66);
                                    reveal_strlit("Generic USB-C Charge Cable (100W)");
                                    reveal_strlit("USB 2.0 (480 Mbps)");
                                } else {
                                    assert(k == 67);
                                    reveal_strlit("Generic USB-C Charge Cable (240W EPR)");
                                    reveal_strlit("USB 2.0 (480 Mbps)");
                                }
                            }
                        }
                    }
                }
            }
        }
    }
}

/// The position in the cable table of a cable key, -1 for other keys.
pub open spec fn cable_position(key: u32) -> int {
    if key == 0x05AC1234 {
        0
    } else if key == 0x05AC1235 {
        1
    } else if key == 0x05AC1236 {
        2
    } else if key == 0x05AC1237 {
        3
    } else if key == 0x05AC1238 {
        4
    } else if key == 0x05AC1239 {
        5
    } else if key == 0x05AC129C {
        6
    } else if key == 0x05AC12A2 {
        7
    } else if key == 0x05AC12A8 {
        8
    } else if key == 0x05AC12AB {
        9
    } else if key == 0x291A0001 {
        10
    } else if key == 0x291A0002 {
        11
    } else if key == 0x291A0003 {
        12
    } else if key == 0x291A0004 {
        13
    } else if key == 0x291A0005 {
        14
    } else if key == 0x291A0006 {
        15
    } else if key == 0x291A0007 {
        16
    } else if key == 0x27170001 {
        17
    } else if key == 0x27170002 {
        18
    } else if key == 0x27170003 {
        19
    } else if key == 0x27170004 {
        20
    } else if key == 0x16B50001 {
        21
    } else if key == 0x16B50002 {
        22
    } else if key == 0x16B50003 {
        23
    } else if key == 0x16B50004 {
        24
    } else if key == 0x0B6A0001 {
        25
    } else if key == 0x0B6A0002 {
        26
    } else if key == 0x33400001 {
        27
    } else if key == 0x33400002 {
        28
    } else if key == 0x33400003 {
        29
    } else if key == 0x33400004 {
        30
    } else if key == 0x33400005 {
        31
    } else if key == 0x04E8A05D {
        32
    } else if key == 0x04E8A064 {
        33
    } else if key == 0x31090003 {
        34
    } else if key == 0x31090004 {
        35
    } else if key == 0x31090005 {
        36
    } else if key == 0x2D950001 {
        37
    } else if key == 0x2D950002 {
        38
    } else if key == 0x14CD0001 {
        39
    } else if key == 0x14CD0002 {
        40
    } else if key == 0x14CD0003 {
        41
    } else if key == 0x14CD0004 {
        42
    } else if key == 0x12170001 {
        43
    } else if key == 0x12170002 {
        44
    } else if key == 0x14300001 {
        45
    } else if key == 0x14300002 {
        46
    } else if key == 0x80870001 {
        47
    } else if key == 0x80870002 {
        48
    } else if key == 0x80870003 {
        49
    } else if key == 0x30C90001 {
        50
    } else if key == 0x30C90002 {
        51
    } else if key == 0x30C90003 {
        52
    } else if key == 0x30C90004 {
        53
    } else if key == 0x28330001 {
        54
    } else if key == 0x04245534 {
        55
    } else if key == 0x21092812 {
        56
    } else if key == 0x34563456 {
        57
    } else if key == 0x00000001 {
        58
    } else if key == 0x00000002 {
        59
    } else if key == 0x00000003 {
        60
    } else if key == 0x00000004 {
        61
    } else if key == 0x00000005 {
        62
    } else if key == 0x00000006 {
        63
    } else if key == 0x00000007 {
        64
    } else if key == 0x00000008 {
        65
    } else if key == 0x00000009 {
        66
    } else if key == 0x0000000A {
        67
    } else {
        -1
    }
}

/// Each cable entry's key leads back to that entry: no two cables share a key.
#[verifier::rlimit(100)]
pub proof fn lemma_cable_keys_distinct()
    ensures
        forall|k: int|
            0 <= k < CABLE_TABLE@.len() ==> cable_position(
                device_key((#[trigger] CABLE_TABLE@[k]).0, CABLE_TABLE@[k].1),
            ) == k,
{
    assert forall|k: int| 0 <= k < CABLE_TABLE@.len() implies cable_position(
        device_key((#[trigger] CABLE_TABLE@[k]).0, CABLE_TABLE@[k].1),
    ) == k by {
        if k < 34 {
            if k < 17 {
                if k < 8 {
                    if k < 4 {
                        if k < 2 {
                            if k < 1 {
                                assert(k == 0);
                            } else {
                                assert(k == 1);
                            }
                        } else {
                            if k < 3 {
                                assert(k == 2);
                            } else {
                                assert(k == 3);
                            }
                        }
                    } else {
                        if k < 6 {
                            if k < 5 {
                                assert(k == 4);
                            } else {
                                assert(k == 5);
                            }
                        } else {
                            if k < 7 {
                                assert(k == 6);
                            } else {
                                assert(k == 7);
                            }
                        }
                    }
                } else {
                    if k < 12 {
                        if k < 10 {
                            if k < 9 {
                                assert(k == 8);
                            } else {
                                assert(k == 9);
                            }
                        } else {
                            if k < 11 {
                                assert(k == 10);
                            } else {
                                assert(k == 11);
                            }
                        }
                    } else {
                        if k < 14 {
                            if k < 13 {
                                assert(k == 12);
                            } else {
                                assert(k == 13);
                            }
                        } else {
                            if k < 15 {
                                assert(k == 14);
                            } else {
                                if k < 16 {
                                    assert(k == 15);
                                } else {
                                    assert(k == 16);
                                }
                            }
                        }
                    }
                }
            } else {
                if k < 25 {
                    if k < 21 {
                        if k < 19 {
                            if k < 18 {
                                assert(k == 17);
                            } else {
                                assert(k == 18);
                            }
                        } else {
                            if k < 20 {
                                assert(k == 19);
                            } else {
                                assert(k == 20);
                            }
                        }
                    } else {
                        if k < 23 {
                            if k < 22 {
                                assert(k == 21);
                            } else {
                                assert(k == 22);
                            }
                        } else {
                            if k < 24 {
                                assert(k == 23);
                            } else {
                                assert(k == 24);
                            }
                        }
                    }
                } else {
                    if k < 29 {
                        if k < 27 {
                            if k < 26 {
                                assert(k == 25);
                            } else {
                                assert(k == 26);
                            }
                        } else {
                            if k < 28 {
                                assert(k == 27);
                            } else {
                                assert(k == 28);
                            }
                        }
                    } else {
                        if k < 31 {
                            if k < 30 {
                                assert(k == 29);
                            } else {
                                assert(k == 30);
                            }
                        } else {
                            if k < 32 {
                                assert(k == 31);
                            } else {
                                if k < 33 {
                                    assert(k == 32);
                                } else {
                                    assert(k == 33);
                                }
                            }
                        }
                    }
                }
            }
        } else {
            if k < 51 {
                if k < 42 {
                    if k < 38 {
                        if k < 36 {
                            if k < 35 {
                                assert(k == 34);
                            } else {
                                assert(k == 35);
                            }
                        } else {
                            if k < 37 {
                                assert(k == 36);
                            } else {
                                assert(k == 37);
                            }
                        }
                    } else {
                        if k < 40 {
                            if k < 39 {
                                assert(k == 38);
                            } else {
                                assert(k == 39);
                            }
                        } else {
                            if k < 41 {
                                assert(k == 40);
                            } else {
                                assert(k == 41);
                            }
                        }
                    }
                } else {
                    if k < 46 {
                        if k < 44 {
                            if k < 43 {
                                assert(k == 42);
                            } else {
                                assert(k == 43);
                            }
                        } else {
                            if k < 45 {
                                assert(k == 44);
                            } else {
                                assert(k == 45);
                            }
                        }
                    } else {
                        if k < 48 {
                            if k < 47 {
                                assert(k == 46);
                            } else {
                                assert(k == 47);
                            }
                        } else {
                            if k < 49 {
                                assert(k == 48);
                            } else {
                                if k < 50 {
                                    assert(k == 49);
                                } else {
                                    assert(k == 50);
                                }
                            }
                        }
                    }
                }
            } else {
                if k < 59 {
                    if k < 55 {
                        if k < 53 {
                            if k < 52 {
                                assert(k == 51);
                            } else {
                                assert(k == 52);
                            }
                        } else {
                            if k < 54 {
                                assert(k == 53);
                            } else {
                                assert(k == 54);
                            }
                        }
                    } else {
                        if k < 57 {
                            if k < 56 {
                                assert(k == 55);
                            } else {
                                assert(k == 56);
                            }
                        } else {
                            if k < 58 {
                                assert(k == 57);
                            } else {
                                assert(k == 58);
                            }
                        }
                    }
                } else {
                    if k < 63 {
                        if k < 61 {
                            if k < 60 {
                                assert(k == 59);
                            } else {
                                assert(k == 60);
                            }
                        } else {
                            if k < 62 {
                                assert(k == 61);
                            } else {
                                assert(k == 62);
                            }
                        }
                    } else {
                        if k < 65 {
                            if k < 64 {
                                assert(k == 63);
                            } else {
                                assert(k == 64);
                            }
                        } else {
                            if k < 66 {
                                assert(k == 65);
                            } else {
                                if k < 67 {
                                    assert(k == 66);
                                } else {
                                    assert(k == 67);
                                }
                            }
                        }
                    }
                }
            }
        }
    }
}

/// Every vendor entry is well formed.
#[verifier::rlimit(100)]
pub proof fn lemma_vendor_entries()
    ensures
        forall|k: int| 0 <= k < VENDOR_TABLE@.len() ==> vendor_entry_ok(#[trigger] VENDOR_TABLE@[k]),
{
    reveal_strlit("Cable");
    reveal_strlit("Unknown");
    assert forall|k: int| 0 <= k < VENDOR_TABLE@.len() implies vendor_entry_ok(#[trigger] VENDOR_TABLE@[k]) by {
        if k < 125 {
            if k < 62 {
                if k < 31 {
                    if k < 15 {
                        if k < 7 {
                            if k < 3 {
                                if k < 1 {
                                    assert(k == 0);
                                    reveal_strlit("Apple");
                                    reveal_strlit("Cable/Charger");
                                    assert("Apple"@.len() == 5);
                                    assert("Cable/Charger"@.len() == 13);
                                } else {
                                    if k < 2 {
                                        assert(k == 1);
                                        reveal_strlit("Apple (Broadcom)");
                                        reveal_strlit("Bluetooth/WiFi");
                                        assert("Apple (Broadcom)"@.len() == 16);
                                        assert("Bluetooth/WiFi"@.len() == 14);
                                    } else {
                                        assert(k == 2);
                                        reveal_strlit("Apple (Thunderbolt)");
                                        reveal_strlit("Thunderbolt");
                                        assert("Apple (Thunderbolt)"@.len() == 19);
                                        assert("Thunderbolt"@.len() == 11);
                                    }
                                }
                            } else {
                                if k < 5 {
                                    if k < 4 {
                                        assert(k == 3);
                                        reveal_strlit("Samsung");
                                        reveal_strlit("Mobile/Charger");
                                        assert("Samsung"@.len() == 7);
                                        assert("Mobile/Charger"@.len() == 14);
                                    } else {
                                        assert(k == 4);
                                        reveal_strlit("Samsung (MTP)");
                                        reveal_strlit("Mobile");
                                        assert("Samsung (MTP)"@.len() == 13);
                                        assert("Mobile"@.len() == 6);
                                    }
                                } else {
                                    if k < 6 {
                                        assert(k == 5);
                                        reveal_strlit("HTC");
                                        reveal_strlit("Mobile");
                                        assert("HTC"@.len() == 3);
                                        assert("Mobile"@.len() == 6);
                                    } else {
                                        assert(k == 6);
                                        reveal_strlit("Google (Nexus/Pixel)");
                                        reveal_strlit("Mobile");
                                        assert("Google (Nexus/Pixel)"@.len() == 20);
                                        assert("Mobile"@.len() == 6);
                                    }
                                }
                            }
                        } else {
                            if k < 11 {
                                if k < 9 {
                                    if k < 8 {
                                        assert(k == 7);
                                        reveal_strlit("Xiaomi");
                                        reveal_strlit("Mobile");
                                        assert("Xiaomi"@.len() == 6);
                                        assert("Mobile"@.len() == 6);
                                    } else {
                                        assert(k == 8);
                                        reveal_strlit("MediaTek");
                                        reveal_strlit("Mobile/WiFi");
                                        assert("MediaTek"@.len() == 8);
                                        assert("Mobile/WiFi"@.len() == 11);
                                    }
                                } else {
                                    if k < 10 {
                                        assert(k == 9);
                                        reveal_strlit("OnePlus");
                                        reveal_strlit("Mobile");
                                        assert("OnePlus"@.len() == 7);
                                        assert("Mobile"@.len() == 6);
                                    } else {
                                        assert(k == 10);
                                        reveal_strlit("Qualcomm");
                                        reveal_strlit("Mobile/Modem");
                                        assert("Qualcomm"@.len() == 8);
                                        assert("Mobile/Modem"@.len() == 12);
                                    }
                                }
                            } else {
                                if k < 13 {
                                    if k < 12 {
                                        assert(k == 11);
                                        reveal_strlit("Lenovo Mobile");
                                        reveal_strlit("Mobile");
                                        assert("Lenovo Mobile"@.len() == 13);
                                        assert("Mobile"@.len() == 6);
                                    } else {
                                        assert(k == 12);
                                        reveal_strlit("Realme");
                                        reveal_strlit("Mobile");
                                        assert("Realme"@.len() == 6);
                                        assert("Mobile"@.len() == 6);
                                    }
                                } else {
                                    if k < 14 {
                                        assert(k == 13);
                                        reveal_strlit("ZTE");
                                        reveal_strlit("Mobile/Modem");
                                        assert("ZTE"@.len() == 3);
                                        assert("Mobile/Modem"@.len() == 12);
                                    } else {
                                        assert(k == 14);
                                        reveal_strlit("Huawei");
                                        reveal_strlit("Mobile/Networking");
                                        assert("Huawei"@.len() == 6);
                                        assert("Mobile/Networking"@.len() == 17);
                                    }
                                }
                            }
                        }
                    } else {
                        if k < 23 {
                            if k < 19 {
                                if k < 17 {
                                    if k < 16 {
                                        assert(k == 15);
                                        reveal_strlit("Huawei (HiSilicon)");
                                        reveal_strlit("Mobile/Modem");
                                        assert("Huawei (HiSilicon)"@.len() == 18);
                                        assert("Mobile/Modem"@.len() == 12);
                                    } else {
                                        assert(k == 16);
                                        reveal_strlit("NEC");
                                        reveal_strlit("Computing");
                                        assert("NEC"@.len() == 3);
                                        assert("Computing"@.len() == 9);
                                    }
                                } else {
                                    if k < 18 {
                                        assert(k == 17);
                                        reveal_strlit("Microsoft");
                                        reveal_strlit("Peripherals");
                                        assert("Microsoft"@.len() == 9);
                                        assert("Peripherals"@.len() == 11);
                                    } else {
                                        assert(k == 18);
                                        reveal_strlit("Microsoft (Surface)");
                                        reveal_strlit("Computing");
                                        assert("Microsoft (Surface)"@.len() == 19);
                                        assert("Computing"@.len() == 9);
                                    }
                                }
                            } else {
                                if k < 21 {
                                    if k < 20 {
                                        assert(k == 19);
                                        reveal_strlit("Intel");
                                        reveal_strlit("USB Controller");
                                        assert("Intel"@.len() == 5);
                                        assert("USB Controller"@.len() == 14);
                                    } else {
                                        assert(k == 20);
                                        reveal_strlit("Intel");
                                        reveal_strlit("Computing");
                                        assert("Intel"@.len() == 5);
                                        assert("Computing"@.len() == 9);
                                    }
                                } else {
                                    if k < 22 {
                                        assert(k == 21);
                                        reveal_strlit("VIA Labs");
                                        reveal_strlit("Hub Controller");
                                        assert("VIA Labs"@.len() == 8);
                                        assert("Hub Controller"@.len() == 14);
                                    } else {
                                        assert(k == 22);
                                        reveal_strlit("Terminus Technology");
                                        reveal_strlit("Hub Controller");
                                        assert("Terminus Technology"@.len() == 19);
                                        assert("Hub Controller"@.len() == 14);
                                    }
                                }
                            }
                        } else {
                            if k < 27 {
                                if k < 25 {
                                    if k < 24 {
                                        assert(k == 23);
                                        reveal_strlit("Microchip (SMSC)");
                                        reveal_strlit("Hub Controller");
                                        assert("Microchip (SMSC)"@.len() == 16);
                                        assert("Hub Controller"@.len() == 14);
                                    } else {
                                        assert(k == 24);
                                        reveal_strlit("ASMedia");
                                        reveal_strlit("Hub/Storage Bridge");
                                        assert("ASMedia"@.len() == 7);
                                        assert("Hub/Storage Bridge"@.len() == 18);
                                    }
                                } else {
                                    if k < 26 {
                                        assert(k == 25);
                                        reveal_strlit("Realtek");
                                        reveal_strlit("Hub/Ethernet");
                                        assert("Realtek"@.len() == 7);
                                        assert("Hub/Ethernet"@.len() == 12);
                                    } else {
                                        assert(k == 26);
                                        reveal_strlit("Genesys Logic");
                                        reveal_strlit("Hub Controller");
                                        assert("Genesys Logic"@.len() == 13);
                                        assert("Hub Controller"@.len() == 14);
                                    }
                                }
                            } else {
                                if k < 29 {
                                    if k < 28 {
                                        assert(k == 27);
                                        reveal_strlit("InnoConn");
                                        reveal_strlit("Hub/Dock");
                                        assert("InnoConn"@.len() == 8);
                                        assert("Hub/Dock"@.len() == 8);
                                    } else {
                                        assert(k == 28);
                                        reveal_strlit("Dell");
                                        reveal_strlit("Computing/Peripherals");
                                        assert("Dell"@.len() == 4);
                                        assert("Computing/Peripherals"@.len() == 21);
                                    }
                                } else {
                                    if k < 30 {
                                        assert(k == 29);
                                        reveal_strlit("Broadcom (Dell)");
                                        reveal_strlit("Bluetooth");
                                        assert("Broadcom (Dell)"@.len() == 15);
                                        assert("Bluetooth"@.len() == 9);
                                    } else {
                                        assert(k == 30);
                                        reveal_strlit("Lenovo");
                                        reveal_strlit("Computing/Dock");
                                        assert("Lenovo"@.len() == 6);
                                        assert("Computing/Dock"@.len() == 14);
                                    }
                                }
                            }
                        }
                    }
                } else {
                    if k < 46 {
                        if k < 38 {
                            if k < 34 {
                                if k < 32 {
                                    assert(k == 31);
                                    reveal_strlit("Lenovo Mobile");
                                    reveal_strlit("Mobile");
                                    assert("Lenovo Mobile"@.len() == 13);
                                    assert("Mobile"@.len() == 6);
                                } else {
                                    if k < 33 {
                                        assert(k == 32);
                                        reveal_strlit("HP");
                                        reveal_strlit("Peripherals");
                                        assert("HP"@.len() == 2);
                                        assert("Peripherals"@.len() == 11);
                                    } else {
                                        assert(k == 33);
                                        reveal_strlit("HP Inc");
                                        reveal_strlit("Computing");
                                        assert("HP Inc"@.len() == 6);
                                        assert("Computing"@.len() == 9);
                                    }
                                }
                            } else {
                                if k < 36 {
                                    if k < 35 {
                                        assert(k == 34);
                                        reveal_strlit("ASUS");
                                        reveal_strlit("Computing");
                                        assert("ASUS"@.len() == 4);
                                        assert("Computing"@.len() == 9);
                                    } else {
                                        assert(k == 35);
                                        reveal_strlit("ASUS (MediaTek)");
                                        reveal_strlit("WiFi");
                                        assert("ASUS (MediaTek)"@.len() == 15);
                                        assert("WiFi"@.len() == 4);
                                    }
                                } else {
                                    if k < 37 {
                                        assert(k == 36);
                                        reveal_strlit("Acer");
                                        reveal_strlit("Computing");
                                        assert("Acer"@.len() == 4);
                                        assert("Computing"@.len() == 9);
                                    } else {
                                        assert(k == 37);
                                        reveal_strlit("Razer");
                                        reveal_strlit("Gaming Peripherals");
                                        assert("Razer"@.len() == 5);
                                        assert("Gaming Peripherals"@.len() == 18);
                                    }
                                }
                            }
                        } else {
                            if k < 42 {
                                if k < 40 {
                                    if k < 39 {
                                        assert(k == 38);
                                        reveal_strlit("Logitech");
                                        reveal_strlit("Peripherals");
                                        assert("Logitech"@.len() == 8);
                                        assert("Peripherals"@.len() == 11);
                                    } else {
                                        assert(k == 39);
                                        reveal_strlit("Philips");
                                        reveal_strlit("Audio");
                                        assert("Philips"@.len() == 7);
                                        assert("Audio"@.len() == 5);
                                        assert("Audio"@[0] != "Cable"@[0]);
                                    }
                                } else {
                                    if k < 41 {
                                        assert(k == 40);
                                        reveal_strlit("Sony");
                                        reveal_strlit("Audio/Mobile");
                                        assert("Sony"@.len() == 4);
                                        assert("Audio/Mobile"@.len() == 12);
                                    } else {
                                        assert(k == 41);
                                        reveal_strlit("Sony (PlayStation)");
                                        reveal_strlit("Gaming");
                                        assert("Sony (PlayStation)"@.len() == 18);
                                        assert("Gaming"@.len() == 6);
                                    }
                                }
                            } else {
                                if k < 44 {
                                    if k < 43 {
                                        assert(k == 42);
                                        reveal_strlit("NVIDIA");
                                        reveal_strlit("Computing");
                                        assert("NVIDIA"@.len() == 6);
                                        assert("Computing"@.len() == 9);
                                    } else {
                                        assert(k == 43);
                                        reveal_strlit("NVIDIA (Shield)");
                                        reveal_strlit("Computing");
                                        assert("NVIDIA (Shield)"@.len() == 15);
                                        assert("Computing"@.len() == 9);
                                    }
                                } else {
                                    if k < 45 {
                                        assert(k == 44);
                                        reveal_strlit("Sennheiser");
                                        reveal_strlit("Audio");
                                        assert("Sennheiser"@.len() == 10);
                                        assert("Audio"@.len() == 5);
                                        assert("Audio"@[0] != "Cable"@[0]);
                                    } else {
                                        assert(k == 45);
                                        reveal_strlit("C-Media");
                                        reveal_strlit("Audio");
                                        assert("C-Media"@.len() == 7);
                                        assert("Audio"@.len() == 5);
                                        assert("Audio"@[0] != "Cable"@[0]);
                                    }
                                }
                            }
                        }
                    } else {
                        if k < 54 {
                            if k < 50 {
                                if k < 48 {
                                    if k < 47 {
                                        assert(k == 46);
                                        reveal_strlit("C-Media (USB Audio)");
                                        reveal_strlit("Audio");
                                        assert("C-Media (USB Audio)"@.len() == 19);
                                        assert("Audio"@.len() == 5);
                                        assert("Audio"@[0] != "Cable"@[0]);
                                    } else {
                                        assert(k == 47);
                                        reveal_strlit("Focusrite");
                                        reveal_strlit("Audio Interface");
                                        assert("Focusrite"@.len() == 9);
                                        assert("Audio Interface"@.len() == 15);
                                    }
                                } else {
                                    if k < 49 {
                                        assert(k == 48);
                                        reveal_strlit("M-Audio");
                                        reveal_strlit("Audio Interface");
                                        assert("M-Audio"@.len() == 7);
                                        assert("Audio Interface"@.len() == 15);
                                    } else {
                                        assert(k == 49);
                                        reveal_strlit("MOTU");
                                        reveal_strlit("Audio Interface");
                                        assert("MOTU"@.len() == 4);
                                        assert("Audio Interface"@.len() == 15);
                                    }
                                }
                            } else {
                                if k < 52 {
                                    if k < 51 {
                                        assert(k == 50);
                                        reveal_strlit("UGREEN (Audio)");
                                        reveal_strlit("Audio DAC");
                                        assert("UGREEN (Audio)"@.len() == 14);
                                        assert("Audio DAC"@.len() == 9);
                                    } else {
                                        assert(k == 51);
                                        reveal_strlit("AudioQuest");
                                        reveal_strlit("DAC");
                                        assert("AudioQuest"@.len() == 10);
                                        assert("DAC"@.len() == 3);
                                    }
                                } else {
                                    if k < 53 {
                                        assert(k == 52);
                                        reveal_strlit("C-Media (DAC)");
                                        reveal_strlit("Audio DAC");
                                        assert("C-Media (DAC)"@.len() == 13);
                                        assert("Audio DAC"@.len() == 9);
                                    } else {
                                        assert(k == 53);
                                        reveal_strlit("Audio-Technica");
                                        reveal_strlit("Audio");
                                        assert("Audio-Technica"@.len() == 14);
                                        assert("Audio"@.len() == 5);
                                        assert("Audio"@[0] != "Cable"@[0]);
                                    }
                                }
                            }
                        } else {
                            if k < 58 {
                                if k < 56 {
                                    if k < 55 {
                                        assert(k == 54);
                                        reveal_strlit("Microchip (DAC)");
                                        reveal_strlit("Audio DAC");
                                        assert("Microchip (DAC)"@.len() == 15);
                                        assert("Audio DAC"@.len() == 9);
                                    } else {
                                        assert(k == 55);
                                        reveal_strlit("Shure");
                                        reveal_strlit("Audio");
                                        assert("Shure"@.len() == 5);
                                        assert("Audio"@.len() == 5);
                                        assert("Audio"@[0] != "Cable"@[0]);
                                    }
                                } else {
                                    if k < 57 {
                                        assert(k == 56);
                                        reveal_strlit("Stamford (AudioEngine)");
                                        reveal_strlit("Audio");
                                        assert("Stamford (AudioEngine)"@.len() == 22);
                                        assert("Audio"@.len() == 5);
                                        assert("Audio"@[0] != "Cable"@[0]);
                                    } else {
                                        assert(k == 57);
                                        reveal_strlit("iFi Audio");
                                        reveal_strlit("Audio DAC");
                                        assert("iFi Audio"@.len() == 9);
                                        assert("Audio DAC"@.len() == 9);
                                    }
                                }
                            } else {
                                if k < 60 {
                                    if k < 59 {
                                        assert(k == 58);
                                        reveal_strlit("Samsung (Audio)");
                                        reveal_strlit("Audio");
                                        assert("Samsung (Audio)"@.len() == 15);
                                        assert("Audio"@.len() == 5);
                                        assert("Audio"@[0] != "Cable"@[0]);
                                    } else {
                                        assert(k == 59);
                                        reveal_strlit("Seagate");
                                        reveal_strlit("Storage");
                                        assert("Seagate"@.len() == 7);
                                        assert("Storage"@.len() == 7);
                                        assert("Storage"@[0] != "Unknown"@[0]);
                                    }
                                } else {
                                    if k < 61 {
                                        assert(k == 60);
                                        reveal_strlit("SanDisk (WD)");
                                        reveal_strlit("Storage");
                                        assert("SanDisk (WD)"@.len() == 12);
                                        assert("Storage"@.len() == 7);
                                        assert("Storage"@[0] != "Unknown"@[0]);
                                    } else {
                                        assert(k == 61);
                                        reveal_strlit("Kingston");
                                        reveal_strlit("Storage");
                                        assert("Kingston"@.len() == 8);
                                        assert("Storage"@.len() == 7);
                                        assert("Storage"@[0] != "Unknown"@[0]);
                                    }
                                }
                            }
                        }
                    }
                }
            } else {
                if k < 93 {
                    if k < 77 {
                        if k < 69 {
                            if k < 65 {
                                if k < 63 {
                                    assert(k == 62);
                                    reveal_strlit("Phison");
                                    reveal_strlit("Storage");
                                    assert("Phison"@.len() == 6);
                                    assert("Storage"@.len() == 7);
                                    assert("Storage"@[0] != "Unknown"@[0]);
                                } else {
                                    if k < 64 {
                                        assert(k == 63);
                                        reveal_strlit("ADATA");
                                        reveal_strlit("Storage");
                                        assert("ADATA"@.len() == 5);
                                        assert("Storage"@.len() == 7);
                                        assert("Storage"@[0] != "Unknown"@[0]);
                                    } else {
                                        assert(k == 64);
                                        reveal_strlit("Western Digital");
                                        reveal_strlit("Storage");
                                        assert("Western Digital"@.len() == 15);
                                        assert("Storage"@.len() == 7);
                                        assert("Storage"@[0] != "Unknown"@[0]);
                                    }
                                }
                            } else {
                                if k < 67 {
                                    if k < 66 {
                                        assert(k == 65);
                                        reveal_strlit("Samsung (Storage)");
                                        reveal_strlit("Storage");
                                        assert("Samsung (Storage)"@.len() == 17);
                                        assert("Storage"@.len() == 7);
                                        assert("Storage"@[0] != "Unknown"@[0]);
                                    } else {
                                        assert(k == 66);
                                        reveal_strlit("LaCie");
                                        reveal_strlit("Storage");
                                        assert("LaCie"@.len() == 5);
                                        assert("Storage"@.len() == 7);
                                        assert("Storage"@[0] != "Unknown"@[0]);
                                    }
                                } else {
                                    if k < 68 {
                                        assert(k == 67);
                                        reveal_strlit("Cypress (Storage)");
                                        reveal_strlit("Storage Bridge");
                                        assert("Cypress (Storage)"@.len() == 17);
                                        assert("Storage Bridge"@.len() == 14);
                                    } else {
                                        assert(k == 68);
                                        reveal_strlit("JMicron");
                                        reveal_strlit("Storage Bridge");
                                        assert("JMicron"@.len() == 7);
                                        assert("Storage Bridge"@.len() == 14);
                                    }
                                }
                            }
                        } else {
                            if k < 73 {
                                if k < 71 {
                                    if k < 70 {
                                        assert(k == 69);
                                        reveal_strlit("ASMedia (Storage)");
                                        reveal_strlit("Storage Bridge");
                                        assert("ASMedia (Storage)"@.len() == 17);
                                        assert("Storage Bridge"@.len() == 14);
                                    } else {
                                        assert(k == 70);
                                        reveal_strlit("VIA Labs (Storage)");
                                        reveal_strlit("Storage Bridge");
                                        assert("VIA Labs (Storage)"@.len() == 18);
                                        assert("Storage Bridge"@.len() == 14);
                                    }
                                } else {
                                    if k < 72 {
                                        assert(k == 71);
                                        reveal_strlit("Innodisk");
                                        reveal_strlit("Storage");
                                        assert("Innodisk"@.len() == 8);
                                        assert("Storage"@.len() == 7);
                                        assert("Storage"@[0] != "Unknown"@[0]);
                                    } else {
                                        assert(k == 72);
                                        reveal_strlit("Silicon Motion");
                                        reveal_strlit("Storage");
                                        assert("Silicon Motion"@.len() == 14);
                                        assert("Storage"@.len() == 7);
                                        assert("Storage"@[0] != "Unknown"@[0]);
                                    }
                                }
                            } else {
                                if k < 75 {
                                    if k < 74 {
                                        assert(k == 73);
                                        reveal_strlit("Apacer");
                                        reveal_strlit("Storage");
                                        assert("Apacer"@.len() == 6);
                                        assert("Storage"@.len() == 7);
                                        assert("Storage"@[0] != "Unknown"@[0]);
                                    } else {
                                        assert(k == 74);
                                        reveal_strlit("PNY");
                                        reveal_strlit("Storage");
                                        assert("PNY"@.len() == 3);
                                        assert("Storage"@.len() == 7);
                                        assert("Storage"@[0] != "Unknown"@[0]);
                                    }
                                } else {
                                    if k < 76 {
                                        assert(k == 75);
                                        reveal_strlit("LSI (Avago)");
                                        reveal_strlit("Storage Controller");
                                        assert("LSI (Avago)"@.len() == 11);
                                        assert("Storage Controller"@.len() == 18);
                                    } else {
                                        assert(k == 76);
                                        reveal_strlit("Intel (Optane)");
                                        reveal_strlit("Storage");
                                        assert("Intel (Optane)"@.len() == 14);
                                        assert("Storage"@.len() == 7);
                                        assert("Storage"@[0] != "Unknown"@[0]);
                                    }
                                }
                            }
                        }
                    } else {
                        if k < 85 {
                            if k < 81 {
                                if k < 79 {
                                    if k < 78 {
                                        assert(k == 77);
                                        reveal_strlit("Transcend");
                                        reveal_strlit("Storage");
                                        assert("Transcend"@.len() == 9);
                                        assert("Storage"@.len() == 7);
                                        assert("Storage"@[0] != "Unknown"@[0]);
                                    } else {
                                        assert(k == 78);
                                        reveal_strlit("Corsair");
                                        reveal_strlit("Storage");
                                        assert("Corsair"@.len() == 7);
                                        assert("Storage"@.len() == 7);
                                        assert("Storage"@[0] != "Unknown"@[0]);
                                    }
                                } else {
                                    if k < 80 {
                                        assert(k == 79);
                                        reveal_strlit("Crucial (Micron)");
                                        reveal_strlit("Storage");
                                        assert("Crucial (Micron)"@.len() == 16);
                                        assert("Storage"@.len() == 7);
                                        assert("Storage"@[0] != "Unknown"@[0]);
                                    } else {
                                        assert(k == 80);
                                        reveal_strlit("Corsair (Storage)");
                                        reveal_strlit("Storage");
                                        assert("Corsair (Storage)"@.len() == 17);
                                        assert("Storage"@.len() == 7);
                                        assert("Storage"@[0] != "Unknown"@[0]);
                                    }
                                }
                            } else {
                                if k < 83 {
                                    if k < 82 {
                                        assert(k == 81);
                                        reveal_strlit("ASIX");
                                        reveal_strlit("Ethernet");
                                        assert("ASIX"@.len() == 4);
                                        assert("Ethernet"@.len() == 8);
                                    } else {
                                        assert(k == 82);
                                        reveal_strlit("D-Link");
                                        reveal_strlit("Ethernet");
                                        assert("D-Link"@.len() == 6);
                                        assert("Ethernet"@.len() == 8);
                                    }
                                } else {
                                    if k < 84 {
                                        assert(k == 83);
                                        reveal_strlit("TP-Link");
                                        reveal_strlit("Ethernet/WiFi");
                                        assert("TP-Link"@.len() == 7);
                                        assert("Ethernet/WiFi"@.len() == 13);
                                    } else {
                                        assert(k == 84);
                                        reveal_strlit("Realtek (Ethernet)");
                                        reveal_strlit("Ethernet");
                                        assert("Realtek (Ethernet)"@.len() == 18);
                                        assert("Ethernet"@.len() == 8);
                                    }
                                }
                            }
                        } else {
                            if k < 89 {
                                if k < 87 {
                                    if k < 86 {
                                        assert(k == 85);
                                        reveal_strlit("Linksys");
                                        reveal_strlit("Ethernet");
                                        assert("Linksys"@.len() == 7);
                                        assert("Ethernet"@.len() == 8);
                                    } else {
                                        assert(k == 86);
                                        reveal_strlit("I-O DATA");
                                        reveal_strlit("Ethernet");
                                        assert("I-O DATA"@.len() == 8);
                                        assert("Ethernet"@.len() == 8);
                                    }
                                } else {
                                    if k < 88 {
                                        assert(k == 87);
                                        reveal_strlit("ATEN");
                                        reveal_strlit("Ethernet/KVM");
                                        assert("ATEN"@.len() == 4);
                                        assert("Ethernet/KVM"@.len() == 12);
                                    } else {
                                        assert(k == 88);
                                        reveal_strlit("Elecom");
                                        reveal_strlit("Ethernet");
                                        assert("Elecom"@.len() == 6);
                                        assert("Ethernet"@.len() == 8);
                                    }
                                }
                            } else {
                                if k < 91 {
                                    if k < 90 {
                                        assert(k == 89);
                                        reveal_strlit("QNAP");
                                        reveal_strlit("Ethernet");
                                        assert("QNAP"@.len() == 4);
                                        assert("Ethernet"@.len() == 8);
                                    } else {
                                        assert(k == 90);
                                        reveal_strlit("CalDigit");
                                        reveal_strlit("Dock");
                                        assert("CalDigit"@.len() == 8);
                                        assert("Dock"@.len() == 4);
                                    }
                                } else {
                                    if k < 92 {
                                        assert(k == 91);
                                        reveal_strlit("HooToo");
                                        reveal_strlit("Hub/Dock");
                                        assert("HooToo"@.len() == 6);
                                        assert("Hub/Dock"@.len() == 8);
                                    } else {
                                        assert(k == 92);
                                        reveal_strlit("Ugreen");
                                        reveal_strlit("Ethernet/Hub");
                                        assert("Ugreen"@.len() == 6);
                                        assert("Ethernet/Hub"@.len() == 12);
                                    }
                                }
                            }
                        }
                    }
                } else {
                    if k < 109 {
                        if k < 101 {
                            if k < 97 {
                                if k < 95 {
                                    if k < 94 {
                                        assert(k == 93);
                                        reveal_strlit("Anker");
                                        reveal_strlit("Hub/Dock/Cable");
                                        assert("Anker"@.len() == 5);
                                        assert("Hub/Dock/Cable"@.len() == 14);
                                    } else {
                                        assert(k == 94);
                                        reveal_strlit("Luxshare");
                                        reveal_strlit("Cable/Dock");
                                        assert("Luxshare"@.len() == 8);
                                        assert("Cable/Dock"@.len() == 10);
                                    }
                                } else {
                                    if k < 96 {
                                        assert(k == 95);
                                        reveal_strlit("Startech");
                                        reveal_strlit("Dock/Adapter");
                                        assert("Startech"@.len() == 8);
                                        assert("Dock/Adapter"@.len() == 12);
                                    } else {
                                        assert(k == 96);
                                        reveal_strlit("Qualcomm Atheros");
                                        reveal_strlit("WiFi/BT");
                                        assert("Qualcomm Atheros"@.len() == 16);
                                        assert("WiFi/BT"@.len() == 7);
                                        assert("WiFi/BT"@[0] != "Unknown"@[0]);
                                    }
                                }
                            } else {
                                if k < 99 {
                                    if k < 98 {
                                        assert(k == 97);
                                        reveal_strlit("MediaTek (WiFi)");
                                        reveal_strlit("WiFi");
                                        assert("MediaTek (WiFi)"@.len() == 15);
                                        assert("WiFi"@.len() == 4);
                                    } else {
                                        assert(k == 98);
                                        reveal_strlit("Broadcom (WiFi)");
                                        reveal_strlit("WiFi/BT");
                                        assert("Broadcom (WiFi)"@.len() == 15);
                                        assert("WiFi/BT"@.len() == 7);
                                        assert("WiFi/BT"@[0] != "Unknown"@[0]);
                                    }
                                } else {
                                    if k < 100 {
                                        assert(k == 99);
                                        reveal_strlit("Intel (WiFi)");
                                        reveal_strlit("WiFi/BT");
                                        assert("Intel (WiFi)"@.len() == 12);
                                        assert("WiFi/BT"@.len() == 7);
                                        assert("WiFi/BT"@[0] != "Unknown"@[0]);
                                    } else {
                                        assert(k == 100);
                                        reveal_strlit("Belkin");
                                        reveal_strlit("WiFi");
                                        assert("Belkin"@.len() == 6);
                                        assert("WiFi"@.len() == 4);
                                    }
                                }
                            }
                        } else {
                            if k < 105 {
                                if k < 103 {
                                    if k < 102 {
                                        assert(k == 101);
                                        reveal_strlit("Netgear");
                                        reveal_strlit("Ethernet/WiFi");
                                        assert("Netgear"@.len() == 7);
                                        assert("Ethernet/WiFi"@.len() == 13);
                                    } else {
                                        assert(k == 102);
                                        reveal_strlit("ZyXEL");
                                        reveal_strlit("WiFi");
                                        assert("ZyXEL"@.len() == 5);
                                        assert("WiFi"@.len() == 4);
                                    }
                                } else {
                                    if k < 104 {
                                        assert(k == 103);
                                        reveal_strlit("Logitech (Webcam)");
                                        reveal_strlit("Webcam");
                                        assert("Logitech (Webcam)"@.len() == 17);
                                        assert("Webcam"@.len() == 6);
                                    } else {
                                        assert(k == 104);
                                        reveal_strlit("ASUS (Webcam)");
                                        reveal_strlit("Webcam");
                                        assert("ASUS (Webcam)"@.len() == 13);
                                        assert("Webcam"@.len() == 6);
                                    }
                                }
                            } else {
                                if k < 107 {
                                    if k < 106 {
                                        assert(k == 105);
                                        reveal_strlit("OmniVision");
                                        reveal_strlit("Camera");
                                        assert("OmniVision"@.len() == 10);
                                        assert("Camera"@.len() == 6);
                                    } else {
                                        assert(k == 106);
                                        reveal_strlit("Sonix");
                                        reveal_strlit("Camera");
                                        assert("Sonix"@.len() == 5);
                                        assert("Camera"@.len() == 6);
                                    }
                                } else {
                                    if k < 108 {
                                        assert(k == 107);
                                        reveal_strlit("Genius");
                                        reveal_strlit("Webcam");
                                        assert("Genius"@.len() == 6);
                                        assert("Webcam"@.len() == 6);
                                    } else {
                                        assert(k == 108);
                                        reveal_strlit("Microdia");
                                        reveal_strlit("Camera");
                                        assert("Microdia"@.len() == 8);
                                        assert("Camera"@.len() == 6);
                                    }
                                }
                            }
                        }
                    } else {
                        if k < 117 {
                            if k < 113 {
                                if k < 111 {
                                    if k < 110 {
                                        assert(k == 109);
                                        reveal_strlit("Elgato");
                                        reveal_strlit("Capture Card");
                                        assert("Elgato"@.len() == 6);
                                        assert("Capture Card"@.len() == 12);
                                    } else {
                                        assert(k == 110);
                                        reveal_strlit("Elgato");
                                        reveal_strlit("Stream Deck");
                                        assert("Elgato"@.len() == 6);
                                        assert("Stream Deck"@.len() == 11);
                                    }
                                } else {
                                    if k < 112 {
                                        assert(k == 111);
                                        reveal_strlit("Razer (Webcam)");
                                        reveal_strlit("Webcam");
                                        assert("Razer (Webcam)"@.len() == 14);
                                        assert("Webcam"@.len() == 6);
                                    } else {
                                        assert(k == 112);
                                        reveal_strlit("Monsoon Solutions");
                                        reveal_strlit("Power Monitor");
                                        assert("Monsoon Solutions"@.len() == 17);
                                        assert("Power Monitor"@.len() == 13);
                                    }
                                }
                            } else {
                                if k < 115 {
                                    if k < 114 {
                                        assert(k == 113);
                                        reveal_strlit("DisplayLink");
                                        reveal_strlit("Display Adapter");
                                        assert("DisplayLink"@.len() == 11);
                                        assert("Display Adapter"@.len() == 15);
                                    } else {
                                        assert(k == 114);
                                        reveal_strlit("Dell (DisplayLink)");
                                        reveal_strlit("Display Adapter");
                                        assert("Dell (DisplayLink)"@.len() == 18);
                                        assert("Display Adapter"@.len() == 15);
                                    }
                                } else {
                                    if k < 116 {
                                        assert(k == 115);
                                        reveal_strlit("DisplayLink (ID)");
                                        reveal_strlit("Display Adapter");
                                        assert("DisplayLink (ID)"@.len() == 16);
                                        assert("Display Adapter"@.len() == 15);
                                    } else {
                                        assert(k == 116);
                                        reveal_strlit("UGREEN");
                                        reveal_strlit("Display Adapter");
                                        assert("UGREEN"@.len() == 6);
                                        assert("Display Adapter"@.len() == 15);
                                    }
                                }
                            }
                        } else {
                            if k < 121 {
                                if k < 119 {
                                    if k < 118 {
                                        assert(k == 117);
                                        reveal_strlit("Anker (Display)");
                                        reveal_strlit("Display Adapter");
                                        assert("Anker (Display)"@.len() == 15);
                                        assert("Display Adapter"@.len() == 15);
                                    } else {
                                        assert(k == 118);
                                        reveal_strlit("NXP (USB-PD)");
                                        reveal_strlit("PD Controller");
                                        assert("NXP (USB-PD)"@.len() == 12);
                                        assert("PD Controller"@.len() == 13);
                                    }
                                } else {
                                    if k < 120 {
                                        assert(k == 119);
                                        reveal_strlit("GigaDevice");
                                        reveal_strlit("Flash/MCU");
                                        assert("GigaDevice"@.len() == 10);
                                        assert("Flash/MCU"@.len() == 9);
                                    } else {
                                        assert(k == 120);
                                        reveal_strlit("Korenix");
                                        reveal_strlit("Industrial");
                                        assert("Korenix"@.len() == 7);
                                        assert("Industrial"@.len() == 10);
                                    }
                                }
                            } else {
                                if k < 123 {
                                    if k < 122 {
                                        assert(k == 121);
                                        reveal_strlit("Sony (DualSense)");
                                        reveal_strlit("Gaming");
                                        assert("Sony (DualSense)"@.len() == 16);
                                        assert("Gaming"@.len() == 6);
                                    } else {
                                        assert(k == 122);
                                        reveal_strlit("Nintendo");
                                        reveal_strlit("Gaming");
                                        assert("Nintendo"@.len() == 8);
                                        assert("Gaming"@.len() == 6);
                                    }
                                } else {
                                    if k < 124 {
                                        assert(k == 123);
                                        reveal_strlit("Microsoft (Xbox)");
                                        reveal_strlit("Gaming");
                                        assert("Microsoft (Xbox)"@.len() == 16);
                                        assert("Gaming"@.len() == 6);
                                    } else {
                                        assert(k == 124);
                                        reveal_strlit("8BitDo");
                                        reveal_strlit("Gaming");
                                        assert("8BitDo"@.len() == 6);
                                        assert("Gaming"@.len() == 6);
                                    }
                                }
                            }
                        }
                    }
                }
            }
        } else {
            if k < 187 {
                if k < 156 {
                    if k < 140 {
                        if k < 132 {
                            if k < 128 {
                                if k < 126 {
                                    assert(k == 125);
                                    reveal_strlit("PowerA");
                                    reveal_strlit("Gaming");
                                    assert("PowerA"@.len() == 6);
                                    assert("Gaming"@.len() == 6);
                                } else {
                                    if k < 127 {
                                        assert(k == 126);
                                        reveal_strlit("HORI");
                                        reveal_strlit("Gaming");
                                        assert("HORI"@.len() == 4);
                                        assert("Gaming"@.len() == 6);
                                    } else {
                                        assert(k == 127);
                                        reveal_strlit("Razer (Gaming)");
                                        reveal_strlit("Gaming");
                                        assert("Razer (Gaming)"@.len() == 14);
                                        assert("Gaming"@.len() == 6);
                                    }
                                }
                            } else {
                                if k < 130 {
                                    if k < 129 {
                                        assert(k == 128);
                                        reveal_strlit("Logitech (Gaming)");
                                        reveal_strlit("Gaming");
                                        assert("Logitech (Gaming)"@.len() == 17);
                                        assert("Gaming"@.len() == 6);
                                    } else {
                                        assert(k == 129);
                                        reveal_strlit("HyperX");
                                        reveal_strlit("Gaming");
                                        assert("HyperX"@.len() == 6);
                                        assert("Gaming"@.len() == 6);
                                    }
                                } else {
                                    if k < 131 {
                                        assert(k == 130);
                                        reveal_strlit("Logitech (Keyboard)");
                                        reveal_strlit("Keyboard");
                                        assert("Logitech (Keyboard)"@.len() == 19);
                                        assert("Keyboard"@.len() == 8);
                                    } else {
                                        assert(k == 131);
                                        reveal_strlit("Microsoft (Keyboard)");
                                        reveal_strlit("Keyboard");
                                        assert("Microsoft (Keyboard)"@.len() == 20);
                                        assert("Keyboard"@.len() == 8);
                                    }
                                }
                            }
                        } else {
                            if k < 136 {
                                if k < 134 {
                                    if k < 133 {
                                        assert(k == 132);
                                        reveal_strlit("Atmel");
                                        reveal_strlit("MCU/Keyboard");
                                        assert("Atmel"@.len() == 5);
                                        assert("MCU/Keyboard"@.len() == 12);
                                    } else {
                                        assert(k == 133);
                                        reveal_strlit("Corsair (Keyboard)");
                                        reveal_strlit("Keyboard");
                                        assert("Corsair (Keyboard)"@.len() == 18);
                                        assert("Keyboard"@.len() == 8);
                                    }
                                } else {
                                    if k < 135 {
                                        assert(k == 134);
                                        reveal_strlit("SteelSeries");
                                        reveal_strlit("Gaming Peripherals");
                                        assert("SteelSeries"@.len() == 11);
                                        assert("Gaming Peripherals"@.len() == 18);
                                    } else {
                                        assert(k == 135);
                                        reveal_strlit("Cherry");
                                        reveal_strlit("Keyboard");
                                        assert("Cherry"@.len() == 6);
                                        assert("Keyboard"@.len() == 8);
                                    }
                                }
                            } else {
                                if k < 138 {
                                    if k < 137 {
                                        assert(k == 136);
                                        reveal_strlit("Holtek");
                                        reveal_strlit("Keyboard");
                                        assert("Holtek"@.len() == 6);
                                        assert("Keyboard"@.len() == 8);
                                    } else {
                                        assert(k == 137);
                                        reveal_strlit("Arduino");
                                        reveal_strlit("MCU/Dev Board");
                                        assert("Arduino"@.len() == 7);
                                        assert("MCU/Dev Board"@.len() == 13);
                                    }
                                } else {
                                    if k < 139 {
                                        assert(k == 138);
                                        reveal_strlit("QinHeng (CH340)");
                                        reveal_strlit("Serial Bridge");
                                        assert("QinHeng (CH340)"@.len() == 15);
                                        assert("Serial Bridge"@.len() == 13);
                                    } else {
                                        assert(k == 139);
                                        reveal_strlit("Silicon Labs");
                                        reveal_strlit("Serial Bridge");
                                        assert("Silicon Labs"@.len() == 12);
                                        assert("Serial Bridge"@.len() == 13);
                                    }
                                }
                            }
                        }
                    } else {
                        if k < 148 {
                            if k < 144 {
                                if k < 142 {
                                    if k < 141 {
                                        assert(k == 140);
                                        reveal_strlit("FTDI");
                                        reveal_strlit("Serial Bridge");
                                        assert("FTDI"@.len() == 4);
                                        assert("Serial Bridge"@.len() == 13);
                                    } else {
                                        assert(k == 141);
                                        reveal_strlit("Logitech (Mouse)");
                                        reveal_strlit("Mouse");
                                        assert("Logitech (Mouse)"@.len() == 16);
                                        assert("Mouse"@.len() == 5);
                                        assert("Mouse"@[0] != "Cable"@[0]);
                                    }
                                } else {
                                    if k < 143 {
                                        assert(k == 142);
                                        reveal_strlit("Microsoft (Mouse)");
                                        reveal_strlit("Mouse");
                                        assert("Microsoft (Mouse)"@.len() == 17);
                                        assert("Mouse"@.len() == 5);
                                        assert("Mouse"@[0] != "Cable"@[0]);
                                    } else {
                                        assert(k == 143);
                                        reveal_strlit("Razer (Mouse)");
                                        reveal_strlit("Mouse");
                                        assert("Razer (Mouse)"@.len() == 13);
                                        assert("Mouse"@.len() == 5);
                                        assert("Mouse"@[0] != "Cable"@[0]);
                                    }
                                }
                            } else {
                                if k < 146 {
                                    if k < 145 {
                                        assert(k == 144);
                                        reveal_strlit("Synaptics");
                                        reveal_strlit("Trackpad/Input");
                                        assert("Synaptics"@.len() == 9);
                                        assert("Trackpad/Input"@.len() == 14);
                                    } else {
                                        assert(k == 145);
                                        reveal_strlit("Apple (Trackpad)");
                                        reveal_strlit("Trackpad");
                                        assert("Apple (Trackpad)"@.len() == 16);
                                        assert("Trackpad"@.len() == 8);
                                    }
                                } else {
                                    if k < 147 {
                                        assert(k == 146);
                                        reveal_strlit("Razer (Viper)");
                                        reveal_strlit("Mouse");
                                        assert("Razer (Viper)"@.len() == 13);
                                        assert("Mouse"@.len() == 5);
                                        assert("Mouse"@[0] != "Cable"@[0]);
                                    } else {
                                        assert(k == 147);
                                        reveal_strlit("HP (Printer)");
                                        reveal_strlit("Printer");
                                        assert("HP (Printer)"@.len() == 12);
                                        assert("Printer"@.len() == 7);
                                        assert("Printer"@[0] != "Unknown"@[0]);
                                    }
                                }
                            }
                        } else {
                            if k < 152 {
                                if k < 150 {
                                    if k < 149 {
                                        assert(k == 148);
                                        reveal_strlit("Epson");
                                        reveal_strlit("Printer");
                                        assert("Epson"@.len() == 5);
                                        assert("Printer"@.len() == 7);
                                        assert("Printer"@[0] != "Unknown"@[0]);
                                    } else {
                                        assert(k == 149);
                                        reveal_strlit("Canon");
                                        reveal_strlit("Printer");
                                        assert("Canon"@.len() == 5);
                                        assert("Printer"@.len() == 7);
                                        assert("Printer"@[0] != "Unknown"@[0]);
                                    }
                                } else {
                                    if k < 151 {
                                        assert(k == 150);
                                        reveal_strlit("Brother");
                                        reveal_strlit("Printer");
                                        assert("Brother"@.len() == 7);
                                        assert("Printer"@.len() == 7);
                                        assert("Printer"@[0] != "Unknown"@[0]);
                                    } else {
                                        assert(k == 151);
                                        reveal_strlit("Kyocera");
                                        reveal_strlit("Printer");
                                        assert("Kyocera"@.len() == 7);
                                        assert("Printer"@.len() == 7);
                                        assert("Printer"@[0] != "Unknown"@[0]);
                                    }
                                }
                            } else {
                                if k < 154 {
                                    if k < 153 {
                                        assert(k == 152);
                                        reveal_strlit("Xerox");
                                        reveal_strlit("Printer");
                                        assert("Xerox"@.len() == 5);
                                        assert("Printer"@.len() == 7);
                                        assert("Printer"@[0] != "Unknown"@[0]);
                                    } else {
                                        assert(k == 153);
                                        reveal_strlit("Realtek (SDR)");
                                        reveal_strlit("SDR");
                                        assert("Realtek (SDR)"@.len() == 13);
                                        assert("SDR"@.len() == 3);
                                    }
                                } else {
                                    if k < 155 {
                                        assert(k == 154);
                                        reveal_strlit("Ubertooth");
                                        reveal_strlit("Bluetooth SDR");
                                        assert("Ubertooth"@.len() == 9);
                                        assert("Bluetooth SDR"@.len() == 13);
                                    } else {
                                        assert(k == 155);
                                        reveal_strlit("OpenMoko");
                                        reveal_strlit("SDR/Dev");
                                        assert("OpenMoko"@.len() == 8);
                                        assert("SDR/Dev"@.len() == 7);
                                        assert("SDR/Dev"@[0] != "Unknown"@[0]);
                                    }
                                }
                            }
                        }
                    }
                } else {
                    if k < 171 {
                        if k < 163 {
                            if k < 159 {
                                if k < 157 {
                                    assert(k == 156);
                                    reveal_strlit("Microchip (Embedded)");
                                    reveal_strlit("MCU");
                                    assert("Microchip (Embedded)"@.len() == 20);
                                    assert("MCU"@.len() == 3);
                                } else {
                                    if k < 158 {
                                        assert(k == 157);
                                        reveal_strlit("Netchip (PLX)");
                                        reveal_strlit("USB Bridge");
                                        assert("Netchip (PLX)"@.len() == 13);
                                        assert("USB Bridge"@.len() == 10);
                                    } else {
                                        assert(k == 158);
                                        reveal_strlit("CH340/CH341");
                                        reveal_strlit("Serial Bridge");
                                        assert("CH340/CH341"@.len() == 11);
                                        assert("Serial Bridge"@.len() == 13);
                                    }
                                }
                            } else {
                                if k < 161 {
                                    if k < 160 {
                                        assert(k == 159);
                                        reveal_strlit("Prolific");
                                        reveal_strlit("Serial Bridge");
                                        assert("Prolific"@.len() == 8);
                                        assert("Serial Bridge"@.len() == 13);
                                    } else {
                                        assert(k == 160);
                                        reveal_strlit("FTDI (Serial)");
                                        reveal_strlit("Serial Bridge");
                                        assert("FTDI (Serial)"@.len() == 13);
                                        assert("Serial Bridge"@.len() == 13);
                                    }
                                } else {
                                    if k < 162 {
                                        assert(k == 161);
                                        reveal_strlit("Silicon Labs (CP210x)");
                                        reveal_strlit("Serial Bridge");
                                        assert("Silicon Labs (CP210x)"@.len() == 21);
                                        assert("Serial Bridge"@.len() == 13);
                                    } else {
                                        assert(k == 162);
                                        reveal_strlit("Adafruit");
                                        reveal_strlit("Dev Board");
                                        assert("Adafruit"@.len() == 8);
                                        assert("Dev Board"@.len() == 9);
                                    }
                                }
                            }
                        } else {
                            if k < 167 {
                                if k < 165 {
                                    if k < 164 {
                                        assert(k == 163);
                                        reveal_strlit("Arduino (SAMD)");
                                        reveal_strlit("Dev Board");
                                        assert("Arduino (SAMD)"@.len() == 14);
                                        assert("Dev Board"@.len() == 9);
                                    } else {
                                        assert(k == 164);
                                        reveal_strlit("SparkFun");
                                        reveal_strlit("Dev Board");
                                        assert("SparkFun"@.len() == 8);
                                        assert("Dev Board"@.len() == 9);
                                    }
                                } else {
                                    if k < 166 {
                                        assert(k == 165);
                                        reveal_strlit("Netchip (Composite)");
                                        reveal_strlit("USB Bridge");
                                        assert("Netchip (Composite)"@.len() == 19);
                                        assert("USB Bridge"@.len() == 10);
                                    } else {
                                        assert(k == 166);
                                        reveal_strlit("Van Ooijen (Teensy)");
                                        reveal_strlit("Dev Board");
                                        assert("Van Ooijen (Teensy)"@.len() == 19);
                                        assert("Dev Board"@.len() == 9);
                                    }
                                }
                            } else {
                                if k < 169 {
                                    if k < 168 {
                                        assert(k == 167);
                                        reveal_strlit("Arduino.org");
                                        reveal_strlit("Dev Board");
                                        assert("Arduino.org"@.len() == 11);
                                        assert("Dev Board"@.len() == 9);
                                    } else {
                                        assert(k == 168);
                                        reveal_strlit("Atmel (AVR)");
                                        reveal_strlit("MCU");
                                        assert("Atmel (AVR)"@.len() == 11);
                                        assert("MCU"@.len() == 3);
                                    }
                                } else {
                                    if k < 170 {
                                        assert(k == 169);
                                        reveal_strlit("STMicroelectronics");
                                        reveal_strlit("MCU");
                                        assert("STMicroelectronics"@.len() == 18);
                                        assert("MCU"@.len() == 3);
                                    } else {
                                        assert(k == 170);
                                        reveal_strlit("Allwinner");
                                        reveal_strlit("SoC");
                                        assert("Allwinner"@.len() == 9);
                                        assert("SoC"@.len() == 3);
                                    }
                                }
                            }
                        }
                    } else {
                        if k < 179 {
                            if k < 175 {
                                if k < 173 {
                                    if k < 172 {
                                        assert(k == 171);
                                        reveal_strlit("Innodisk (Embedded)");
                                        reveal_strlit("Storage");
                                        assert("Innodisk (Embedded)"@.len() == 19);
                                        assert("Storage"@.len() == 7);
                                        assert("Storage"@[0] != "Unknown"@[0]);
                                    } else {
                                        assert(k == 172);
                                        reveal_strlit("Wacom");
                                        reveal_strlit("Graphics Tablet");
                                        assert("Wacom"@.len() == 5);
                                        assert("Graphics Tablet"@.len() == 15);
                                    }
                                } else {
                                    if k < 174 {
                                        assert(k == 173);
                                        reveal_strlit("Genius (Tablet)");
                                        reveal_strlit("Graphics Tablet");
                                        assert("Genius (Tablet)"@.len() == 15);
                                        assert("Graphics Tablet"@.len() == 15);
                                    } else {
                                        assert(k == 174);
                                        reveal_strlit("XP-Pen");
                                        reveal_strlit("Graphics Tablet");
                                        assert("XP-Pen"@.len() == 6);
                                        assert("Graphics Tablet"@.len() == 15);
                                    }
                                }
                            } else {
                                if k < 177 {
                                    if k < 176 {
                                        assert(k == 175);
                                        reveal_strlit("Huion");
                                        reveal_strlit("Graphics Tablet");
                                        assert("Huion"@.len() == 5);
                                        assert("Graphics Tablet"@.len() == 15);
                                    } else {
                                        assert(k == 176);
                                        reveal_strlit("Huion (Alt)");
                                        reveal_strlit("Graphics Tablet");
                                        assert("Huion (Alt)"@.len() == 11);
                                        assert("Graphics Tablet"@.len() == 15);
                                    }
                                } else {
                                    if k < 178 {
                                        assert(k == 177);
                                        reveal_strlit("Oculus (Meta)");
                                        reveal_strlit("VR");
                                        assert("Oculus (Meta)"@.len() == 13);
                                        assert("VR"@.len() == 2);
                                    } else {
                                        assert(k == 178);
                                        reveal_strlit("HTC (Vive)");
                                        reveal_strlit("VR");
                                        assert("HTC (Vive)"@.len() == 10);
                                        assert("VR"@.len() == 2);
                                    }
                                }
                            }
                        } else {
                            if k < 183 {
                                if k < 181 {
                                    if k < 180 {
                                        assert(k == 179);
                                        reveal_strlit("STMicro (VR)");
                                        reveal_strlit("VR");
                                        assert("STMicro (VR)"@.len() == 12);
                                        assert("VR"@.len() == 2);
                                    } else {
                                        assert(k == 180);
                                        reveal_strlit("Wacom (VR)");
                                        reveal_strlit("VR Controller");
                                        assert("Wacom (VR)"@.len() == 10);
                                        assert("VR Controller"@.len() == 13);
                                    }
                                } else {
                                    if k < 182 {
                                        assert(k == 181);
                                        reveal_strlit("Belkin (Charger)");
                                        reveal_strlit("Charger");
                                        assert("Belkin (Charger)"@.len() == 16);
                                        assert("Charger"@.len() == 7);
                                        assert("Charger"@[0] != "Unknown"@[0]);
                                    } else {
                                        assert(k == 182);
                                        reveal_strlit("Anker (Charger)");
                                        reveal_strlit("Charger");
                                        assert("Anker (Charger)"@.len() == 15);
                                        assert("Charger"@.len() == 7);
                                        assert("Charger"@[0] != "Unknown"@[0]);
                                    }
                                }
                            } else {
                                if k < 185 {
                                    if k < 184 {
                                        assert(k == 183);
                                        reveal_strlit("UGREEN (Charger)");
                                        reveal_strlit("Charger");
                                        assert("UGREEN (Charger)"@.len() == 16);
                                        assert("Charger"@.len() == 7);
                                        assert("Charger"@[0] != "Unknown"@[0]);
                                    } else {
                                        assert(k == 184);
                                        reveal_strlit("Samsung (Charger)");
                                        reveal_strlit("Charger");
                                        assert("Samsung (Charger)"@.len() == 17);
                                        assert("Charger"@.len() == 7);
                                        assert("Charger"@[0] != "Unknown"@[0]);
                                    }
                                } else {
                                    if k < 186 {
                                        assert(k == 185);
                                        reveal_strlit("Apple (Charger)");
                                        reveal_strlit("Charger");
                                        assert("Apple (Charger)"@.len() == 15);
                                        assert("Charger"@.len() == 7);
                                        assert("Charger"@[0] != "Unknown"@[0]);
                                    } else {
                                        assert(k == 186);
                                        reveal_strlit("GaN Systems");
                                        reveal_strlit("Charger");
                                        assert("GaN Systems"@.len() == 11);
                                        assert("Charger"@.len() == 7);
                                        assert("Charger"@[0] != "Unknown"@[0]);
                                    }
                                }
                            }
                        }
                    }
                }
            } else {
                if k < 218 {
                    if k < 202 {
                        if k < 194 {
                            if k < 190 {
                                if k < 188 {
                                    assert(k == 187);
                                    reveal_strlit("Zendure");
                                    reveal_strlit("Power Bank");
                                    assert("Zendure"@.len() == 7);
                                    assert("Power Bank"@.len() == 10);
                                } else {
                                    if k < 189 {
                                        assert(k == 188);
                                        reveal_strlit("Baseus");
                                        reveal_strlit("Charger");
                                        assert("Baseus"@.len() == 6);
                                        assert("Charger"@.len() == 7);
                                        assert("Charger"@[0] != "Unknown"@[0]);
                                    } else {
                                        assert(k == 189);
                                        reveal_strlit("Luxshare (Charger)");
                                        reveal_strlit("Charger");
                                        assert("Luxshare (Charger)"@.len() == 18);
                                        assert("Charger"@.len() == 7);
                                        assert("Charger"@[0] != "Unknown"@[0]);
                                    }
                                }
                            } else {
                                if k < 192 {
                                    if k < 191 {
                                        assert(k == 190);
                                        reveal_strlit("InnoConn (Charger)");
                                        reveal_strlit("Charger");
                                        assert("InnoConn (Charger)"@.len() == 18);
                                        assert("Charger"@.len() == 7);
                                        assert("Charger"@[0] != "Unknown"@[0]);
                                    } else {
                                        assert(k == 191);
                                        reveal_strlit("CalDigit");
                                        reveal_strlit("Dock");
                                        assert("CalDigit"@.len() == 8);
                                        assert("Dock"@.len() == 4);
                                    }
                                } else {
                                    if k < 193 {
                                        assert(k == 192);
                                        reveal_strlit("Lenovo (Dock)");
                                        reveal_strlit("Dock");
                                        assert("Lenovo (Dock)"@.len() == 13);
                                        assert("Dock"@.len() == 4);
                                    } else {
                                        assert(k == 193);
                                        reveal_strlit("ThinkPad (Dock)");
                                        reveal_strlit("Dock");
                                        assert("ThinkPad (Dock)"@.len() == 15);
                                        assert("Dock"@.len() == 4);
                                    }
                                }
                            }
                        } else {
                            if k < 198 {
                                if k < 196 {
                                    if k < 195 {
                                        assert(k == 194);
                                        reveal_strlit("Microchip (Dock)");
                                        reveal_strlit("Dock");
                                        assert("Microchip (Dock)"@.len() == 16);
                                        assert("Dock"@.len() == 4);
                                    } else {
                                        assert(k == 195);
                                        reveal_strlit("VIA Labs (Dock)");
                                        reveal_strlit("Dock");
                                        assert("VIA Labs (Dock)"@.len() == 15);
                                        assert("Dock"@.len() == 4);
                                    }
                                } else {
                                    if k < 197 {
                                        assert(k == 196);
                                        reveal_strlit("Terminus (Dock)");
                                        reveal_strlit("Dock");
                                        assert("Terminus (Dock)"@.len() == 15);
                                        assert("Dock"@.len() == 4);
                                    } else {
                                        assert(k == 197);
                                        reveal_strlit("UGREEN (Dock)");
                                        reveal_strlit("Dock");
                                        assert("UGREEN (Dock)"@.len() == 13);
                                        assert("Dock"@.len() == 4);
                                    }
                                }
                            } else {
                                if k < 200 {
                                    if k < 199 {
                                        assert(k == 198);
                                        reveal_strlit("Anker (Dock)");
                                        reveal_strlit("Dock");
                                        assert("Anker (Dock)"@.len() == 12);
                                        assert("Dock"@.len() == 4);
                                    } else {
                                        assert(k == 199);
                                        reveal_strlit("Samsung (Dex)");
                                        reveal_strlit("Dock");
                                        assert("Samsung (Dex)"@.len() == 13);
                                        assert("Dock"@.len() == 4);
                                    }
                                } else {
                                    if k < 201 {
                                        assert(k == 200);
                                        reveal_strlit("StarTech");
                                        reveal_strlit("Dock/Adapter");
                                        assert("StarTech"@.len() == 8);
                                        assert("Dock/Adapter"@.len() == 12);
                                    } else {
                                        assert(k == 201);
                                        reveal_strlit("Satechi");
                                        reveal_strlit("Dock/Hub");
                                        assert("Satechi"@.len() == 7);
                                        assert("Dock/Hub"@.len() == 8);
                                    }
                                }
                            }
                        }
                    } else {
                        if k < 210 {
                            if k < 206 {
                                if k < 204 {
                                    if k < 203 {
                                        assert(k == 202);
                                        reveal_strlit("Luxshare (Dock)");
                                        reveal_strlit("Dock");
                                        assert("Luxshare (Dock)"@.len() == 15);
                                        assert("Dock"@.len() == 4);
                                    } else {
                                        assert(k == 203);
                                        reveal_strlit("LaCie (Rugged)");
                                        reveal_strlit("Storage");
                                        assert("LaCie (Rugged)"@.len() == 14);
                                        assert("Storage"@.len() == 7);
                                        assert("Storage"@[0] != "Unknown"@[0]);
                                    }
                                } else {
                                    if k < 205 {
                                        assert(k == 204);
                                        reveal_strlit("Moxa");
                                        reveal_strlit("Industrial");
                                        assert("Moxa"@.len() == 4);
                                        assert("Industrial"@.len() == 10);
                                    } else {
                                        assert(k == 205);
                                        reveal_strlit("Phidgets");
                                        reveal_strlit("Industrial");
                                        assert("Phidgets"@.len() == 8);
                                        assert("Industrial"@.len() == 10);
                                    }
                                }
                            } else {
                                if k < 208 {
                                    if k < 207 {
                                        assert(k == 206);
                                        reveal_strlit("NXP (MCU)");
                                        reveal_strlit("MCU");
                                        assert("NXP (MCU)"@.len() == 9);
                                        assert("MCU"@.len() == 3);
                                    } else {
                                        assert(k == 207);
                                        reveal_strlit("Tenx Technology");
                                        reveal_strlit("USB Bridge");
                                        assert("Tenx Technology"@.len() == 15);
                                        assert("USB Bridge"@.len() == 10);
                                    }
                                } else {
                                    if k < 209 {
                                        assert(k == 208);
                                        reveal_strlit("Terminus (USB Hub)");
                                        reveal_strlit("Hub");
                                        assert("Terminus (USB Hub)"@.len() == 18);
                                        assert("Hub"@.len() == 3);
                                    } else {
                                        assert(k == 209);
                                        reveal_strlit("Intel (Mobile)");
                                        reveal_strlit("Mobile");
                                        assert("Intel (Mobile)"@.len() == 14);
                                        assert("Mobile"@.len() == 6);
                                    }
                                }
                            }
                        } else {
                            if k < 214 {
                                if k < 212 {
                                    if k < 211 {
                                        assert(k == 210);
                                        reveal_strlit("Alcor Micro");
                                        reveal_strlit("Card Reader");
                                        assert("Alcor Micro"@.len() == 11);
                                        assert("Card Reader"@.len() == 11);
                                    } else {
                                        assert(k == 211);
                                        reveal_strlit("Genesys Logic");
                                        reveal_strlit("Card Reader");
                                        assert("Genesys Logic"@.len() == 13);
                                        assert("Card Reader"@.len() == 11);
                                    }
                                } else {
                                    if k < 213 {
                                        assert(k == 212);
                                        reveal_strlit("O2 Micro");
                                        reveal_strlit("Card Reader");
                                        assert("O2 Micro"@.len() == 8);
                                        assert("Card Reader"@.len() == 11);
                                    } else {
                                        assert(k == 213);
                                        reveal_strlit("Realtek (Card Reader)");
                                        reveal_strlit("Card Reader");
                                        assert("Realtek (Card Reader)"@.len() == 21);
                                        assert("Card Reader"@.len() == 11);
                                    }
                                }
                            } else {
                                if k < 216 {
                                    if k < 215 {
                                        assert(k == 214);
                                        reveal_strlit("Raspberry Pi");
                                        reveal_strlit("Dev Board");
                                        assert("Raspberry Pi"@.len() == 12);
                                        assert("Dev Board"@.len() == 9);
                                    } else {
                                        assert(k == 215);
                                        reveal_strlit("Raspberry Pi (USB)");
                                        reveal_strlit("Dev Board");
                                        assert("Raspberry Pi (USB)"@.len() == 18);
                                        assert("Dev Board"@.len() == 9);
                                    }
                                } else {
                                    if k < 217 {
                                        assert(k == 216);
                                        reveal_strlit("Espressif (ESP32)");
                                        reveal_strlit("Dev Board");
                                        assert("Espressif (ESP32)"@.len() == 17);
                                        assert("Dev Board"@.len() == 9);
                                    } else {
                                        assert(k == 217);
                                        reveal_strlit("NEC (Renesas)");
                                        reveal_strlit("USB Controller");
                                        assert("NEC (Renesas)"@.len() == 13);
                                        assert("USB Controller"@.len() == 14);
                                    }
                                }
                            }
                        }
                    }
                } else {
                    if k < 234 {
                        if k < 226 {
                            if k < 222 {
                                if k < 220 {
                                    if k < 219 {
                                        assert(k == 218);
                                        reveal_strlit("Cypress");
                                        reveal_strlit("USB Controller");
                                        assert("Cypress"@.len() == 7);
                                        assert("USB Controller"@.len() == 14);
                                    } else {
                                        assert(k == 219);
                                        reveal_strlit("Red Hat (VFIO)");
                                        reveal_strlit("Virtual USB");
                                        assert("Red Hat (VFIO)"@.len() == 14);
                                        assert("Virtual USB"@.len() == 11);
                                    }
                                } else {
                                    if k < 221 {
                                        assert(k == 220);
                                        reveal_strlit("Corsair (Flash)");
                                        reveal_strlit("Storage");
                                        assert("Corsair (Flash)"@.len() == 15);
                                        assert("Storage"@.len() == 7);
                                        assert("Storage"@[0] != "Unknown"@[0]);
                                    } else {
                                        assert(k == 221);
                                        reveal_strlit("Samsung (T5/T7)");
                                        reveal_strlit("Storage");
                                        assert("Samsung (T5/T7)"@.len() == 15);
                                        assert("Storage"@.len() == 7);
                                        assert("Storage"@[0] != "Unknown"@[0]);
                                    }
                                }
                            } else {
                                if k < 224 {
                                    if k < 223 {
                                        assert(k == 222);
                                        reveal_strlit("USBest");
                                        reveal_strlit("Storage Bridge");
                                        assert("USBest"@.len() == 6);
                                        assert("Storage Bridge"@.len() == 14);
                                    } else {
                                        assert(k == 223);
                                        reveal_strlit("Super Top");
                                        reveal_strlit("Storage Bridge");
                                        assert("Super Top"@.len() == 9);
                                        assert("Storage Bridge"@.len() == 14);
                                    }
                                } else {
                                    if k < 225 {
                                        assert(k == 224);
                                        reveal_strlit("Corsair (SSD)");
                                        reveal_strlit("Storage");
                                        assert("Corsair (SSD)"@.len() == 13);
                                        assert("Storage"@.len() == 7);
                                        assert("Storage"@[0] != "Unknown"@[0]);
                                    } else {
                                        assert(k == 225);
                                        reveal_strlit("Silicon Motion");
                                        reveal_strlit("Storage");
                                        assert("Silicon Motion"@.len() == 14);
                                        assert("Storage"@.len() == 7);
                                        assert("Storage"@[0] != "Unknown"@[0]);
                                    }
                                }
                            }
                        } else {
                            if k < 230 {
                                if k < 228 {
                                    if k < 227 {
                                        assert(k == 226);
                                        reveal_strlit("Renkforce");
                                        reveal_strlit("Storage");
                                        assert("Renkforce"@.len() == 9);
                                        assert("Storage"@.len() == 7);
                                        assert("Storage"@[0] != "Unknown"@[0]);
                                    } else {
                                        assert(k == 227);
                                        reveal_strlit("Native Instruments");
                                        reveal_strlit("Audio Interface");
                                        assert("Native Instruments"@.len() == 18);
                                        assert("Audio Interface"@.len() == 15);
                                    }
                                } else {
                                    if k < 229 {
                                        assert(k == 228);
                                        reveal_strlit("RME");
                                        reveal_strlit("Audio Interface");
                                        assert("RME"@.len() == 3);
                                        assert("Audio Interface"@.len() == 15);
                                    } else {
                                        assert(k == 229);
                                        reveal_strlit("PreSonus");
                                        reveal_strlit("Audio Interface");
                                        assert("PreSonus"@.len() == 8);
                                        assert("Audio Interface"@.len() == 15);
                                    }
                                }
                            } else {
                                if k < 232 {
                                    if k < 231 {
                                        assert(k == 230);
                                        reveal_strlit("Behringer");
                                        reveal_strlit("Audio Interface");
                                        assert("Behringer"@.len() == 9);
                                        assert("Audio Interface"@.len() == 15);
                                    } else {
                                        assert(k == 231);
                                        reveal_strlit("Audient");
                                        reveal_strlit("Audio Interface");
                                        assert("Audient"@.len() == 7);
                                        assert("Audio Interface"@.len() == 15);
                                    }
                                } else {
                                    if k < 233 {
                                        assert(k == 232);
                                        reveal_strlit("Zoom");
                                        reveal_strlit("Audio Interface");
                                        assert("Zoom"@.len() == 4);
                                        assert("Audio Interface"@.len() == 15);
                                    } else {
                                        assert(k == 233);
                                        reveal_strlit("Philips (Audio)");
                                        reveal_strlit("Audio");
                                        assert("Philips (Audio)"@.len() == 15);
                                        assert("Audio"@.len() == 5);
                                        assert("Audio"@[0] != "Cable"@[0]);
                                    }
                                }
                            }
                        }
                    } else {
                        if k < 242 {
                            if k < 238 {
                                if k < 236 {
                                    if k < 235 {
                                        assert(k == 234);
                                        reveal_strlit("Tesla");
                                        reveal_strlit("Automotive");
                                        assert("Tesla"@.len() == 5);
                                        assert("Automotive"@.len() == 10);
                                    } else {
                                        assert(k == 235);
                                        reveal_strlit("ASUS (Automotive)");
                                        reveal_strlit("Automotive");
                                        assert("ASUS (Automotive)"@.len() == 17);
                                        assert("Automotive"@.len() == 10);
                                    }
                                } else {
                                    if k < 237 {
                                        assert(k == 236);
                                        reveal_strlit("DJI");
                                        reveal_strlit("Drone/Camera");
                                        assert("DJI"@.len() == 3);
                                        assert("Drone/Camera"@.len() == 12);
                                    } else {
                                        assert(k == 237);
                                        reveal_strlit("Canon (Camera)");
                                        reveal_strlit("Camera");
                                        assert("Canon (Camera)"@.len() == 14);
                                        assert("Camera"@.len() == 6);
                                    }
                                }
                            } else {
                                if k < 240 {
                                    if k < 239 {
                                        assert(k == 238);
                                        reveal_strlit("Sony (Camera)");
                                        reveal_strlit("Camera");
                                        assert("Sony (Camera)"@.len() == 13);
                                        assert("Camera"@.len() == 6);
                                    } else {
                                        assert(k == 239);
                                        reveal_strlit("Epson (Camera)");
                                        reveal_strlit("Camera");
                                        assert("Epson (Camera)"@.len() == 14);
                                        assert("Camera"@.len() == 6);
                                    }
                                } else {
                                    if k < 241 {
                                        assert(k == 240);
                                        reveal_strlit("Fujifilm");
                                        reveal_strlit("Camera");
                                        assert("Fujifilm"@.len() == 8);
                                        assert("Camera"@.len() == 6);
                                    } else {
                                        assert(k == 241);
                                        reveal_strlit("Chicony");
                                        reveal_strlit("Camera");
                                        assert("Chicony"@.len() == 7);
                                        assert("Camera"@.len() == 6);
                                    }
                                }
                            }
                        } else {
                            if k < 246 {
                                if k < 244 {
                                    if k < 243 {
                                        assert(k == 242);
                                        reveal_strlit("Google (Android)");
                                        reveal_strlit("Mobile");
                                        assert("Google (Android)"@.len() == 16);
                                        assert("Mobile"@.len() == 6);
                                    } else {
                                        assert(k == 243);
                                        reveal_strlit("Samsung (USB)");
                                        reveal_strlit("Mobile");
                                        assert("Samsung (USB)"@.len() == 13);
                                        assert("Mobile"@.len() == 6);
                                    }
                                } else {
                                    if k < 245 {
                                        assert(k == 244);
                                        reveal_strlit("HTC (USB)");
                                        reveal_strlit("Mobile");
                                        assert("HTC (USB)"@.len() == 9);
                                        assert("Mobile"@.len() == 6);
                                    } else {
                                        assert(k == 245);
                                        reveal_strlit("Xiaomi (USB)");
                                        reveal_strlit("Mobile");
                                        assert("Xiaomi (USB)"@.len() == 12);
                                        assert("Mobile"@.len() == 6);
                                    }
                                }
                            } else {
                                if k < 248 {
                                    if k < 247 {
                                        assert(k == 246);
                                        reveal_strlit("Huawei (USB)");
                                        reveal_strlit("Mobile");
                                        assert("Huawei (USB)"@.len() == 12);
                                        assert("Mobile"@.len() == 6);
                                    } else {
                                        assert(k == 247);
                                        reveal_strlit("Huawei (USB2)");
                                        reveal_strlit("Mobile");
                                        assert("Huawei (USB2)"@.len() == 13);
                                        assert("Mobile"@.len() == 6);
                                    }
                                } else {
                                    if k < 249 {
                                        assert(k == 248);
                                        reveal_strlit("MediaTek (USB)");
                                        reveal_strlit("Mobile");
                                        assert("MediaTek (USB)"@.len() == 14);
                                        assert("Mobile"@.len() == 6);
                                    } else {
                                        assert(k == 249);
                                        reveal_strlit("OnePlus (USB)");
                                        reveal_strlit("Mobile");
                                        assert("OnePlus (USB)"@.len() == 13);
                                        assert("Mobile"@.len() == 6);
                                    }
                                }
                            }
                        }
                    }
                }
            }
        }
    }
}

/// Every device entry is well formed.
#[verifier::rlimit(100)]
pub proof fn lemma_device_entries()
    ensures
        forall|k: int| 0 <= k < DEVICE_TABLE@.len() ==> device_entry_ok(#[trigger] DEVICE_TABLE@[k]),
{
    reveal_strlit("Cable");
    reveal_strlit("Unknown");
    assert forall|k: int| 0 <= k < DEVICE_TABLE@.len() implies device_entry_ok(#[trigger] DEVICE_TABLE@[k]) by {
        if k < 129 {
            if k < 64 {
                if k < 32 {
                    if k < 16 {
                        if k < 8 {
                            if k < 4 {
                                if k < 2 {
                                    if k < 1 {
                                        assert(k == 0);
                                        reveal_strlit("Apple USB-C Charge Cable");
                                        reveal_strlit("Cable");
                                        lemma_cable_map_has_entry(CABLE_TABLE@, 0);
                                    } else {
                                        assert(k == 1);
                                        reveal_strlit("Apple USB-C Charge Cable (1m)");
                                        reveal_strlit("Cable");
                                        lemma_cable_map_has_entry(CABLE_TABLE@, 1);
                                    }
                                } else {
                                    if k < 3 {
                                        assert(k == 2);
                                        reveal_strlit("Apple USB-C Charge Cable (2m)");
                                        reveal_strlit("Cable");
                                        lemma_cable_map_has_entry(CABLE_TABLE@, 2);
                                    } else {
                                        assert(k == 3);
                                        reveal_strlit("Apple Thunderbolt Cable");
                                        reveal_strlit("Cable");
                                        lemma_cable_map_has_entry(CABLE_TABLE@, 3);
                                    }
                                }
                            } else {
                                if k < 6 {
                                    if k < 5 {
                                        assert(k == 4);
                                        reveal_strlit("Apple Thunderbolt 4 Pro (1m)");
                                        reveal_strlit("Cable");
                                        lemma_cable_map_has_entry(CABLE_TABLE@, 4);
                                    } else {
                                        assert(k == 5);
                                        reveal_strlit("Apple Thunderbolt 4 Pro (1.8m)");
                                        reveal_strlit("Cable");
                                        lemma_cable_map_has_entry(CABLE_TABLE@, 5);
                                    }
                                } else {
                                    if k < 7 {
                                        assert(k == 6);
                                        reveal_strlit("Apple USB-C Cable (USB 2.0)");
                                        reveal_strlit("Cable");
                                        lemma_cable_map_has_entry(CABLE_TABLE@, 6);
                                    } else {
                                        assert(k == 7);
                                        reveal_strlit("Apple USB-C to USB-C Cable (USB 3.0)");
                                        reveal_strlit("Cable");
                                        lemma_cable_map_has_entry(CABLE_TABLE@, 7);
                                    }
                                }
                            }
                        } else {
                            if k < 12 {
                                if k < 10 {
                                    if k < 9 {
                                        assert(k == 8);
                                        reveal_strlit("Apple USB-C to USB-C Cable (USB 2.0)");
                                        reveal_strlit("Cable");
                                        lemma_cable_map_has_entry(CABLE_TABLE@, 8);
                                    } else {
                                        assert(k == 9);
                                        reveal_strlit("Apple USB-C Charge Cable (1.5m)");
                                        reveal_strlit("Cable");
                                        lemma_cable_map_has_entry(CABLE_TABLE@, 9);
                                    }
                                } else {
                                    if k < 11 {
                                        assert(k == 10);
                                        reveal_strlit("Apple USB-C Power Adapter (20W)");
                                        reveal_strlit("Charger");
                                        assert("Charger"@[0] != "Unknown"@[0]);
                                    } else {
                                        assert(k == 11);
                                        reveal_strlit("Apple USB-C Power Adapter (30W)");
                                        reveal_strlit("Charger");
                                        assert("Charger"@[0] != "Unknown"@[0]);
                                    }
                                }
                            } else {
                                if k < 14 {
                                    if k < 13 {
                                        assert(k == 12);
                                        reveal_strlit("Apple USB-C Power Adapter (61W)");
                                        reveal_strlit("Charger");
                                        assert("Charger"@[0] != "Unknown"@[0]);
                                    } else {
                                        assert(k == 13);
                                        reveal_strlit("Apple USB-C Power Adapter (87W)");
                                        reveal_strlit("Charger");
                                        assert("Charger"@[0] != "Unknown"@[0]);
                                    }
                                } else {
                                    if k < 15 {
                                        assert(k == 14);
                                        reveal_strlit("Apple USB-C Power Adapter (96W)");
                                        reveal_strlit("Charger");
                                        assert("Charger"@[0] != "Unknown"@[0]);
                                    } else {
                                        assert(k == 15);
                                        reveal_strlit("Apple USB-C Power Adapter (140W)");
                                        reveal_strlit("Charger");
                                        assert("Charger"@[0] != "Unknown"@[0]);
                                    }
                                }
                            }
                        }
                    } else {
                        if k < 24 {
                            if k < 20 {
                                if k < 18 {
                                    if k < 17 {
                                        assert(k == 16);
                                        reveal_strlit("Apple USB-C Power Adapter (35W)");
                                        reveal_strlit("Charger");
                                        assert("Charger"@[0] != "Unknown"@[0]);
                                    } else {
                                        assert(k == 17);
                                        reveal_strlit("Apple USB-C Power Adapter (20W 2019)");
                                        reveal_strlit("Charger");
                                        assert("Charger"@[0] != "Unknown"@[0]);
                                    }
                                } else {
                                    if k < 19 {
                                        assert(k == 18);
                                        reveal_strlit("Anker USB-C Charger (30W)");
                                        reveal_strlit("Charger");
                                        assert("Charger"@[0] != "Unknown"@[0]);
                                    } else {
                                        assert(k == 19);
                                        reveal_strlit("Anker USB-C Charger (65W)");
                                        reveal_strlit("Charger");
                                        assert("Charger"@[0] != "Unknown"@[0]);
                                    }
                                }
                            } else {
                                if k < 22 {
                                    if k < 21 {
                                        assert(k == 20);
                                        reveal_strlit("Anker USB-C Charger (100W)");
                                        reveal_strlit("Charger");
                                        assert("Charger"@[0] != "Unknown"@[0]);
                                    } else {
                                        assert(k == 21);
                                        reveal_strlit("Anker Nano II 65W Charger");
                                        reveal_strlit("Charger");
                                        assert("Charger"@[0] != "Unknown"@[0]);
                                    }
                                } else {
                                    if k < 23 {
                                        assert(k == 22);
                                        reveal_strlit("Anker PowerPort 4 Charger");
                                        reveal_strlit("Charger");
                                        assert("Charger"@[0] != "Unknown"@[0]);
                                    } else {
                                        assert(k == 23);
                                        reveal_strlit("Xiaomi 33W USB-C Charger");
                                        reveal_strlit("Charger");
                                        assert("Charger"@[0] != "Unknown"@[0]);
                                    }
                                }
                            }
                        } else {
                            if k < 28 {
                                if k < 26 {
                                    if k < 25 {
                                        assert(k == 24);
                                        reveal_strlit("Xiaomi 67W Turbo Charger");
                                        reveal_strlit("Charger");
                                        assert("Charger"@[0] != "Unknown"@[0]);
                                    } else {
                                        assert(k == 25);
                                        reveal_strlit("Xiaomi 120W Charger");
                                        reveal_strlit("Charger");
                                        assert("Charger"@[0] != "Unknown"@[0]);
                                    }
                                } else {
                                    if k < 27 {
                                        assert(k == 26);
                                        reveal_strlit("POCO X7 Pro Charger (90W)");
                                        reveal_strlit("Charger");
                                        assert("Charger"@[0] != "Unknown"@[0]);
                                    } else {
                                        assert(k == 27);
                                        reveal_strlit("Samsung Galaxy S21");
                                        reveal_strlit("Mobile");
                                    }
                                }
                            } else {
                                if k < 30 {
                                    if k < 29 {
                                        assert(k == 28);
                                        reveal_strlit("Samsung Galaxy S22");
                                        reveal_strlit("Mobile");
                                    } else {
                                        assert(k == 29);
                                        reveal_strlit("Samsung Galaxy S23");
                                        reveal_strlit("Mobile");
                                    }
                                } else {
                                    if k < 31 {
                                        assert(k == 30);
                                        reveal_strlit("Samsung Galaxy S24");
                                        reveal_strlit("Mobile");
                                    } else {
                                        assert(k == 31);
                                        reveal_strlit("Samsung Galaxy Z Fold");
                                        reveal_strlit("Mobile");
                                    }
                                }
                            }
                        }
                    }
                } else {
                    if k < 48 {
                        if k < 40 {
                            if k < 36 {
                                if k < 34 {
                                    if k < 33 {
                                        assert(k == 32);
                                        reveal_strlit("Samsung Galaxy Note 20");
                                        reveal_strlit("Mobile");
                                    } else {
                                        assert(k == 33);
                                        reveal_strlit("Samsung Galaxy Z Flip");
                                        reveal_strlit("Mobile");
                                    }
                                } else {
                                    if k < 35 {
                                        assert(k == 34);
                                        reveal_strlit("Samsung T7 Portable SSD");
                                        reveal_strlit("Storage");
                                        assert("Storage"@[0] != "Unknown"@[0]);
                                    } else {
                                        assert(k == 35);
                                        reveal_strlit("Samsung T7 Touch SSD");
                                        reveal_strlit("Storage");
                                        assert("Storage"@[0] != "Unknown"@[0]);
                                    }
                                }
                            } else {
                                if k < 38 {
                                    if k < 37 {
                                        assert(k == 36);
                                        reveal_strlit("Samsung T9 Portable SSD");
                                        reveal_strlit("Storage");
                                        assert("Storage"@[0] != "Unknown"@[0]);
                                    } else {
                                        assert(k == 37);
                                        reveal_strlit("Samsung DeX Pad");
                                        reveal_strlit("Dock");
                                    }
                                } else {
                                    if k < 39 {
                                        assert(k == 38);
                                        reveal_strlit("Samsung 45W USB-C Charger");
                                        reveal_strlit("Charger");
                                        assert("Charger"@[0] != "Unknown"@[0]);
                                    } else {
                                        assert(k == 39);
                                        reveal_strlit("Google Nexus/Pixel (MTP)");
                                        reveal_strlit("Mobile");
                                    }
                                }
                            }
                        } else {
                            if k < 44 {
                                if k < 42 {
                                    if k < 41 {
                                        assert(k == 40);
                                        reveal_strlit("Google Nexus/Pixel (PTP)");
                                        reveal_strlit("Mobile");
                                    } else {
                                        assert(k == 41);
                                        reveal_strlit("Google Pixel (USB Debug)");
                                        reveal_strlit("Mobile");
                                    }
                                } else {
                                    if k < 43 {
                                        assert(k == 42);
                                        reveal_strlit("Google Pixel 6/7/8");
                                        reveal_strlit("Mobile");
                                    } else {
                                        assert(k == 43);
                                        reveal_strlit("Google Pixel 8 Pro");
                                        reveal_strlit("Mobile");
                                    }
                                }
                            } else {
                                if k < 46 {
                                    if k < 45 {
                                        assert(k == 44);
                                        reveal_strlit("Google Pixel USB Earbuds");
                                        reveal_strlit("Audio");
                                        assert("Audio"@[0] != "Cable"@[0]);
                                    } else {
                                        assert(k == 45);
                                        reveal_strlit("Xiaomi Phone (MTP)");
                                        reveal_strlit("Mobile");
                                    }
                                } else {
                                    if k < 47 {
                                        assert(k == 46);
                                        reveal_strlit("Xiaomi Phone (ADB)");
                                        reveal_strlit("Mobile");
                                    } else {
                                        assert(k == 47);
                                        reveal_strlit("Xiaomi Mi 11/12/13");
                                        reveal_strlit("Mobile");
                                    }
                                }
                            }
                        }
                    } else {
                        if k < 56 {
                            if k < 52 {
                                if k < 50 {
                                    if k < 49 {
                                        assert(k == 48);
                                        reveal_strlit("OnePlus Phone (MTP)");
                                        reveal_strlit("Mobile");
                                    } else {
                                        assert(k == 49);
                                        reveal_strlit("OnePlus Nord");
                                        reveal_strlit("Mobile");
                                    }
                                } else {
                                    if k < 51 {
                                        assert(k == 50);
                                        reveal_strlit("Huawei Phone (MTP)");
                                        reveal_strlit("Mobile");
                                    } else {
                                        assert(k == 51);
                                        reveal_strlit("Huawei Phone (HiSuite)");
                                        reveal_strlit("Mobile");
                                    }
                                }
                            } else {
                                if k < 54 {
                                    if k < 53 {
                                        assert(k == 52);
                                        reveal_strlit("Huawei P30/P40/P50");
                                        reveal_strlit("Mobile");
                                    } else {
                                        assert(k == 53);
                                        reveal_strlit("Xbox One Controller (USB)");
                                        reveal_strlit("Gaming");
                                    }
                                } else {
                                    if k < 55 {
                                        assert(k == 54);
                                        reveal_strlit("Xbox One S Controller");
                                        reveal_strlit("Gaming");
                                    } else {
                                        assert(k == 55);
                                        reveal_strlit("Xbox Elite Controller v2");
                                        reveal_strlit("Gaming");
                                    }
                                }
                            }
                        } else {
                            if k < 60 {
                                if k < 58 {
                                    if k < 57 {
                                        assert(k == 56);
                                        reveal_strlit("Xbox Series X|S Controller");
                                        reveal_strlit("Gaming");
                                    } else {
                                        assert(k == 57);
                                        reveal_strlit("Xbox Wireless Adapter");
                                        reveal_strlit("Gaming");
                                    }
                                } else {
                                    if k < 59 {
                                        assert(k == 58);
                                        reveal_strlit("Xbox One Controller (BT)");
                                        reveal_strlit("Gaming");
                                    } else {
                                        assert(k == 59);
                                        reveal_strlit("Xbox Series Controller (USB-C)");
                                        reveal_strlit("Gaming");
                                    }
                                }
                            } else {
                                if k < 62 {
                                    if k < 61 {
                                        assert(k == 60);
                                        reveal_strlit("DualShock 4 (PS4)");
                                        reveal_strlit("Gaming");
                                    } else {
                                        assert(k == 61);
                                        reveal_strlit("DualShock 4 v2 (PS4)");
                                        reveal_strlit("Gaming");
                                    }
                                } else {
                                    if k < 63 {
                                        assert(k == 62);
                                        reveal_strlit("DualSense (PS5)");
                                        reveal_strlit("Gaming");
                                    } else {
                                        assert(k == 63);
                                        reveal_strlit("DualSense Edge (PS5)");
                                        reveal_strlit("Gaming");
                                    }
                                }
                            }
                        }
                    }
                }
            } else {
                if k < 96 {
                    if k < 80 {
                        if k < 72 {
                            if k < 68 {
                                if k < 66 {
                                    if k < 65 {
                                        assert(k == 64);
                                        reveal_strlit("Nintendo Switch Pro Controller");
                                        reveal_strlit("Gaming");
                                    } else {
                                        assert(k == 65);
                                        reveal_strlit("Nintendo Switch (USB)");
                                        reveal_strlit("Gaming");
                                    }
                                } else {
                                    if k < 67 {
                                        assert(k == 66);
                                        reveal_strlit("Nintendo Switch OLED");
                                        reveal_strlit("Gaming");
                                    } else {
                                        assert(k == 67);
                                        reveal_strlit("8BitDo Pro 2");
                                        reveal_strlit("Gaming");
                                    }
                                }
                            } else {
                                if k < 70 {
                                    if k < 69 {
                                        assert(k == 68);
                                        reveal_strlit("8BitDo Ultimate");
                                        reveal_strlit("Gaming");
                                    } else {
                                        assert(k == 69);
                                        reveal_strlit("8BitDo SN30 Pro+");
                                        reveal_strlit("Gaming");
                                    }
                                } else {
                                    if k < 71 {
                                        assert(k == 70);
                                        reveal_strlit("Logitech G Pro Headset");
                                        reveal_strlit("Audio");
                                        assert("Audio"@[0] != "Cable"@[0]);
                                    } else {
                                        assert(k == 71);
                                        reveal_strlit("Logitech G733 Headset");
                                        reveal_strlit("Audio");
                                        assert("Audio"@[0] != "Cable"@[0]);
                                    }
                                }
                            }
                        } else {
                            if k < 76 {
                                if k < 74 {
                                    if k < 73 {
                                        assert(k == 72);
                                        reveal_strlit("Logitech G Pro X Headset");
                                        reveal_strlit("Audio");
                                        assert("Audio"@[0] != "Cable"@[0]);
                                    } else {
                                        assert(k == 73);
                                        reveal_strlit("Logitech G502 X Mouse");
                                        reveal_strlit("Mouse");
                                        assert("Mouse"@[0] != "Cable"@[0]);
                                    }
                                } else {
                                    if k < 75 {
                                        assert(k == 74);
                                        reveal_strlit("Logitech G502 HERO");
                                        reveal_strlit("Mouse");
                                        assert("Mouse"@[0] != "Cable"@[0]);
                                    } else {
                                        assert(k == 75);
                                        reveal_strlit("Logitech MX Master 3S");
                                        reveal_strlit("Mouse");
                                        assert("Mouse"@[0] != "Cable"@[0]);
                                    }
                                }
                            } else {
                                if k < 78 {
                                    if k < 77 {
                                        assert(k == 76);
                                        reveal_strlit("Logitech MX Master 3");
                                        reveal_strlit("Mouse");
                                        assert("Mouse"@[0] != "Cable"@[0]);
                                    } else {
                                        assert(k == 77);
                                        reveal_strlit("Logitech MX Master 2S");
                                        reveal_strlit("Mouse");
                                        assert("Mouse"@[0] != "Cable"@[0]);
                                    }
                                } else {
                                    if k < 79 {
                                        assert(k == 78);
                                        reveal_strlit("Logitech StreamCam");
                                        reveal_strlit("Webcam");
                                    } else {
                                        assert(k == 79);
                                        reveal_strlit("Logitech C920 Webcam");
                                        reveal_strlit("Webcam");
                                    }
                                }
                            }
                        }
                    } else {
                        if k < 88 {
                            if k < 84 {
                                if k < 82 {
                                    if k < 81 {
                                        assert(k == 80);
                                        reveal_strlit("Logitech C922 Pro Webcam");
                                        reveal_strlit("Webcam");
                                    } else {
                                        assert(k == 81);
                                        reveal_strlit("Logitech Brio 4K Webcam");
                                        reveal_strlit("Webcam");
                                    }
                                } else {
                                    if k < 83 {
                                        assert(k == 82);
                                        reveal_strlit("Logitech Brio 300 Webcam");
                                        reveal_strlit("Webcam");
                                    } else {
                                        assert(k == 83);
                                        reveal_strlit("Logitech MX Keys Keyboard");
                                        reveal_strlit("Keyboard");
                                    }
                                }
                            } else {
                                if k < 86 {
                                    if k < 85 {
                                        assert(k == 84);
                                        reveal_strlit("Logitech MX Keys S");
                                        reveal_strlit("Keyboard");
                                    } else {
                                        assert(k == 85);
                                        reveal_strlit("Logitech Craft Keyboard");
                                        reveal_strlit("Keyboard");
                                    }
                                } else {
                                    if k < 87 {
                                        assert(k == 86);
                                        reveal_strlit("Logitech K380 Keyboard");
                                        reveal_strlit("Keyboard");
                                    } else {
                                        assert(k == 87);
                                        reveal_strlit("Logitech K780 Keyboard");
                                        reveal_strlit("Keyboard");
                                    }
                                }
                            }
                        } else {
                            if k < 92 {
                                if k < 90 {
                                    if k < 89 {
                                        assert(k == 88);
                                        reveal_strlit("Razer DeathAdder V3");
                                        reveal_strlit("Mouse");
                                        assert("Mouse"@[0] != "Cable"@[0]);
                                    } else {
                                        assert(k == 89);
                                        reveal_strlit("Razer DeathAdder V3 Pro");
                                        reveal_strlit("Mouse");
                                        assert("Mouse"@[0] != "Cable"@[0]);
                                    }
                                } else {
                                    if k < 91 {
                                        assert(k == 90);
                                        reveal_strlit("Razer BlackWidow V4");
                                        reveal_strlit("Keyboard");
                                    } else {
                                        assert(k == 91);
                                        reveal_strlit("Razer Huntsman V3 Pro");
                                        reveal_strlit("Keyboard");
                                    }
                                }
                            } else {
                                if k < 94 {
                                    if k < 93 {
                                        assert(k == 92);
                                        reveal_strlit("Razer Kraken V3");
                                        reveal_strlit("Audio");
                                        assert("Audio"@[0] != "Cable"@[0]);
                                    } else {
                                        assert(k == 93);
                                        reveal_strlit("Razer Barracuda X");
                                        reveal_strlit("Audio");
                                        assert("Audio"@[0] != "Cable"@[0]);
                                    }
                                } else {
                                    if k < 95 {
                                        assert(k == 94);
                                        reveal_strlit("Razer Kiyo Pro Webcam");
                                        reveal_strlit("Webcam");
                                    } else {
                                        assert(k == 95);
                                        reveal_strlit("Razer Stream Controller X");
                                        reveal_strlit("Stream Deck");
                                    }
                                }
                            }
                        }
                    }
                } else {
                    if k < 112 {
                        if k < 104 {
                            if k < 100 {
                                if k < 98 {
                                    if k < 97 {
                                        assert(k == 96);
                                        reveal_strlit("SteelSeries Aerox 3");
                                        reveal_strlit("Mouse");
                                        assert("Mouse"@[0] != "Cable"@[0]);
                                    } else {
                                        assert(k == 97);
                                        reveal_strlit("SteelSeries Aerox 5");
                                        reveal_strlit("Mouse");
                                        assert("Mouse"@[0] != "Cable"@[0]);
                                    }
                                } else {
                                    if k < 99 {
                                        assert(k == 98);
                                        reveal_strlit("SteelSeries Prime Mouse");
                                        reveal_strlit("Mouse");
                                        assert("Mouse"@[0] != "Cable"@[0]);
                                    } else {
                                        assert(k == 99);
                                        reveal_strlit("SteelSeries Arctis Nova 7");
                                        reveal_strlit("Audio");
                                        assert("Audio"@[0] != "Cable"@[0]);
                                    }
                                }
                            } else {
                                if k < 102 {
                                    if k < 101 {
                                        assert(k == 100);
                                        reveal_strlit("SteelSeries Arctis Nova Pro");
                                        reveal_strlit("Audio");
                                        assert("Audio"@[0] != "Cable"@[0]);
                                    } else {
                                        assert(k == 101);
                                        reveal_strlit("Corsair M75 Air Mouse");
                                        reveal_strlit("Mouse");
                                        assert("Mouse"@[0] != "Cable"@[0]);
                                    }
                                } else {
                                    if k < 103 {
                                        assert(k == 102);
                                        reveal_strlit("Corsair K100 RGB Keyboard");
                                        reveal_strlit("Keyboard");
                                    } else {
                                        assert(k == 103);
                                        reveal_strlit("Corsair K65 Plus Keyboard");
                                        reveal_strlit("Keyboard");
                                    }
                                }
                            }
                        } else {
                            if k < 108 {
                                if k < 106 {
                                    if k < 105 {
                                        assert(k == 104);
                                        reveal_strlit("Corsair HS80 Headset");
                                        reveal_strlit("Audio");
                                        assert("Audio"@[0] != "Cable"@[0]);
                                    } else {
                                        assert(k == 105);
                                        reveal_strlit("Corsair HS65 Headset");
                                        reveal_strlit("Audio");
                                        assert("Audio"@[0] != "Cable"@[0]);
                                    }
                                } else {
                                    if k < 107 {
                                        assert(k == 106);
                                        reveal_strlit("Corsair Virtuoso Headset");
                                        reveal_strlit("Audio");
                                        assert("Audio"@[0] != "Cable"@[0]);
                                    } else {
                                        assert(k == 107);
                                        reveal_strlit("Corsair iCUE Nexus");
                                        reveal_strlit("Stream Deck");
                                    }
                                }
                            } else {
                                if k < 110 {
                                    if k < 109 {
                                        assert(k == 108);
                                        reveal_strlit("Corsair T1 Racing Wheel");
                                        reveal_strlit("Gaming");
                                    } else {
                                        assert(k == 109);
                                        reveal_strlit("HyperX Cloud III Headset");
                                        reveal_strlit("Audio");
                                        assert("Audio"@[0] != "Cable"@[0]);
                                    }
                                } else {
                                    if k < 111 {
                                        assert(k == 110);
                                        reveal_strlit("HyperX Pulsefire Haste 2");
                                        reveal_strlit("Mouse");
                                        assert("Mouse"@[0] != "Cable"@[0]);
                                    } else {
                                        assert(k == 111);
                                        reveal_strlit("HyperX Alloy Elite 2");
                                        reveal_strlit("Keyboard");
                                    }
                                }
                            }
                        }
                    } else {
                        if k < 120 {
                            if k < 116 {
                                if k < 114 {
                                    if k < 113 {
                                        assert(k == 112);
                                        reveal_strlit("Sony WF-1000XM5 Earbuds");
                                        reveal_strlit("Audio");
                                        assert("Audio"@[0] != "Cable"@[0]);
                                    } else {
                                        assert(k == 113);
                                        reveal_strlit("Sony WH-1000XM5 Headphones");
                                        reveal_strlit("Audio");
                                        assert("Audio"@[0] != "Cable"@[0]);
                                    }
                                } else {
                                    if k < 115 {
                                        assert(k == 114);
                                        reveal_strlit("Sony WH-1000XM4 Headphones");
                                        reveal_strlit("Audio");
                                        assert("Audio"@[0] != "Cable"@[0]);
                                    } else {
                                        assert(k == 115);
                                        reveal_strlit("Sony WF-1000XM4 Earbuds");
                                        reveal_strlit("Audio");
                                        assert("Audio"@[0] != "Cable"@[0]);
                                    }
                                }
                            } else {
                                if k < 118 {
                                    if k < 117 {
                                        assert(k == 116);
                                        reveal_strlit("Focusrite Scarlett 2i2 (3rd Gen)");
                                        reveal_strlit("Audio Interface");
                                    } else {
                                        assert(k == 117);
                                        reveal_strlit("Focusrite Scarlett 4i4 (3rd Gen)");
                                        reveal_strlit("Audio Interface");
                                    }
                                } else {
                                    if k < 119 {
                                        assert(k == 118);
                                        reveal_strlit("Focusrite Scarlett Solo (4th Gen)");
                                        reveal_strlit("Audio Interface");
                                    } else {
                                        assert(k == 119);
                                        reveal_strlit("Focusrite Scarlett 2i2 (4th Gen)");
                                        reveal_strlit("Audio Interface");
                                    }
                                }
                            }
                        } else {
                            if k < 124 {
                                if k < 122 {
                                    if k < 121 {
                                        assert(k == 120);
                                        reveal_strlit("Focusrite Clarett+ 2Pre");
                                        reveal_strlit("Audio Interface");
                                    } else {
                                        assert(k == 121);
                                        reveal_strlit("Elgato HD60 X Capture Card");
                                        reveal_strlit("Capture Card");
                                    }
                                } else {
                                    if k < 123 {
                                        assert(k == 122);
                                        reveal_strlit("Elgato Cam Link 4K");
                                        reveal_strlit("Capture Card");
                                    } else {
                                        assert(k == 123);
                                        reveal_strlit("Elgato Facecam Pro");
                                        reveal_strlit("Webcam");
                                    }
                                }
                            } else {
                                if k < 126 {
                                    if k < 125 {
                                        assert(k == 124);
                                        reveal_strlit("Elgato Facecam MK.2");
                                        reveal_strlit("Webcam");
                                    } else {
                                        assert(k == 125);
                                        reveal_strlit("Elgato Stream Deck+");
                                        reveal_strlit("Stream Deck");
                                    }
                                } else {
                                    if k < 127 {
                                        assert(k == 126);
                                        reveal_strlit("Elgato Stream Deck MK.2");
                                        reveal_strlit("Stream Deck");
                                    } else {
                                        if k < 128 {
                                            assert(k == 127);
                                            reveal_strlit("Elgato Stream Deck Neo");
                                            reveal_strlit("Stream Deck");
                                        } else {
                                            assert(k == 128);
                                            reveal_strlit("Elgato Wave XLR");
                                            reveal_strlit("Audio Interface");
                                        }
                                    }
                                }
                            }
                        }
                    }
                }
            }
        } else {
            if k < 193 {
                if k < 161 {
                    if k < 145 {
                        if k < 137 {
                            if k < 133 {
                                if k < 131 {
                                    if k < 130 {
                                        assert(k == 129);
                                        reveal_strlit("Elgato Wave:3 Microphone");
                                        reveal_strlit("Microphone");
                                    } else {
                                        assert(k == 130);
                                        reveal_strlit("Audio-Technica AT2020USB+");
                                        reveal_strlit("Microphone");
                                    }
                                } else {
                                    if k < 132 {
                                        assert(k == 131);
                                        reveal_strlit("Audio-Technica ATR2100x");
                                        reveal_strlit("Microphone");
                                    } else {
                                        assert(k == 132);
                                        reveal_strlit("Wacom Intuos Pro (USB)");
                                        reveal_strlit("Graphics Tablet");
                                    }
                                }
                            } else {
                                if k < 135 {
                                    if k < 134 {
                                        assert(k == 133);
                                        reveal_strlit("Wacom Cintiq 16");
                                        reveal_strlit("Display Tablet");
                                    } else {
                                        assert(k == 134);
                                        reveal_strlit("Wacom One (USB)");
                                        reveal_strlit("Graphics Tablet");
                                    }
                                } else {
                                    if k < 136 {
                                        assert(k == 135);
                                        reveal_strlit("Wacom Intuos Pro Medium");
                                        reveal_strlit("Graphics Tablet");
                                    } else {
                                        assert(k == 136);
                                        reveal_strlit("Huawei Phone (MTP)");
                                        reveal_strlit("Mobile");
                                    }
                                }
                            }
                        } else {
                            if k < 141 {
                                if k < 139 {
                                    if k < 138 {
                                        assert(k == 137);
                                        reveal_strlit("Huawei Phone (HiSuite)");
                                        reveal_strlit("Mobile");
                                    } else {
                                        assert(k == 138);
                                        reveal_strlit("Huawei P30 Pro");
                                        reveal_strlit("Mobile");
                                    }
                                } else {
                                    if k < 140 {
                                        assert(k == 139);
                                        reveal_strlit("DJI Mini 3 Pro");
                                        reveal_strlit("Drone");
                                        assert("Drone"@[0] != "Cable"@[0]);
                                    } else {
                                        assert(k == 140);
                                        reveal_strlit("DJI Mavic 3");
                                        reveal_strlit("Drone");
                                        assert("Drone"@[0] != "Cable"@[0]);
                                    }
                                }
                            } else {
                                if k < 143 {
                                    if k < 142 {
                                        assert(k == 141);
                                        reveal_strlit("DJI Air 3");
                                        reveal_strlit("Drone");
                                        assert("Drone"@[0] != "Cable"@[0]);
                                    } else {
                                        assert(k == 142);
                                        reveal_strlit("DJI Avata 2");
                                        reveal_strlit("Drone");
                                        assert("Drone"@[0] != "Cable"@[0]);
                                    }
                                } else {
                                    if k < 144 {
                                        assert(k == 143);
                                        reveal_strlit("Canon EOS R5 (USB)");
                                        reveal_strlit("Camera");
                                    } else {
                                        assert(k == 144);
                                        reveal_strlit("Canon EOS R6");
                                        reveal_strlit("Camera");
                                    }
                                }
                            }
                        }
                    } else {
                        if k < 153 {
                            if k < 149 {
                                if k < 147 {
                                    if k < 146 {
                                        assert(k == 145);
                                        reveal_strlit("Canon EOS R");
                                        reveal_strlit("Camera");
                                    } else {
                                        assert(k == 146);
                                        reveal_strlit("Sony Alpha a7 IV (USB)");
                                        reveal_strlit("Camera");
                                    }
                                } else {
                                    if k < 148 {
                                        assert(k == 147);
                                        reveal_strlit("Sony Alpha a7R V");
                                        reveal_strlit("Camera");
                                    } else {
                                        assert(k == 148);
                                        reveal_strlit("SanDisk Extreme Portable SSD");
                                        reveal_strlit("Storage");
                                        assert("Storage"@[0] != "Unknown"@[0]);
                                    }
                                }
                            } else {
                                if k < 151 {
                                    if k < 150 {
                                        assert(k == 149);
                                        reveal_strlit("SanDisk Extreme Pro Portable SSD");
                                        reveal_strlit("Storage");
                                        assert("Storage"@[0] != "Unknown"@[0]);
                                    } else {
                                        assert(k == 150);
                                        reveal_strlit("SanDisk Extreme Pro v2 (2TB)");
                                        reveal_strlit("Storage");
                                        assert("Storage"@[0] != "Unknown"@[0]);
                                    }
                                } else {
                                    if k < 152 {
                                        assert(k == 151);
                                        reveal_strlit("SanDisk Ultra Dual Drive USB-C");
                                        reveal_strlit("Storage");
                                        assert("Storage"@[0] != "Unknown"@[0]);
                                    } else {
                                        assert(k == 152);
                                        reveal_strlit("WD My Passport SSD");
                                        reveal_strlit("Storage");
                                        assert("Storage"@[0] != "Unknown"@[0]);
                                    }
                                }
                            }
                        } else {
                            if k < 157 {
                                if k < 155 {
                                    if k < 154 {
                                        assert(k == 153);
                                        reveal_strlit("WD My Passport Ultra");
                                        reveal_strlit("Storage");
                                        assert("Storage"@[0] != "Unknown"@[0]);
                                    } else {
                                        assert(k == 154);
                                        reveal_strlit("Seagate One Touch SSD");
                                        reveal_strlit("Storage");
                                        assert("Storage"@[0] != "Unknown"@[0]);
                                    }
                                } else {
                                    if k < 156 {
                                        assert(k == 155);
                                        reveal_strlit("Seagate Backup Plus SSD");
                                        reveal_strlit("Storage");
                                        assert("Storage"@[0] != "Unknown"@[0]);
                                    } else {
                                        assert(k == 156);
                                        reveal_strlit("Seagate Fast SSD");
                                        reveal_strlit("Storage");
                                        assert("Storage"@[0] != "Unknown"@[0]);
                                    }
                                }
                            } else {
                                if k < 159 {
                                    if k < 158 {
                                        assert(k == 157);
                                        reveal_strlit("Kingston XS2000 Portable SSD");
                                        reveal_strlit("Storage");
                                        assert("Storage"@[0] != "Unknown"@[0]);
                                    } else {
                                        assert(k == 158);
                                        reveal_strlit("Kingston DataTraveler Max");
                                        reveal_strlit("Storage");
                                        assert("Storage"@[0] != "Unknown"@[0]);
                                    }
                                } else {
                                    if k < 160 {
                                        assert(k == 159);
                                        reveal_strlit("ADATA SD700 External SSD");
                                        reveal_strlit("Storage");
                                        assert("Storage"@[0] != "Unknown"@[0]);
                                    } else {
                                        assert(k == 160);
                                        reveal_strlit("ADATA SE800 External SSD");
                                        reveal_strlit("Storage");
                                        assert("Storage"@[0] != "Unknown"@[0]);
                                    }
                                }
                            }
                        }
                    }
                } else {
                    if k < 177 {
                        if k < 169 {
                            if k < 165 {
                                if k < 163 {
                                    if k < 162 {
                                        assert(k == 161);
                                        reveal_strlit("Crucial X6 Portable SSD");
                                        reveal_strlit("Storage");
                                        assert("Storage"@[0] != "Unknown"@[0]);
                                    } else {
                                        assert(k == 162);
                                        reveal_strlit("Crucial X8 Portable SSD");
                                        reveal_strlit("Storage");
                                        assert("Storage"@[0] != "Unknown"@[0]);
                                    }
                                } else {
                                    if k < 164 {
                                        assert(k == 163);
                                        reveal_strlit("PNY CS3040 Portable SSD");
                                        reveal_strlit("Storage");
                                        assert("Storage"@[0] != "Unknown"@[0]);
                                    } else {
                                        assert(k == 164);
                                        reveal_strlit("Transcend ESD310 Portable SSD");
                                        reveal_strlit("Storage");
                                        assert("Storage"@[0] != "Unknown"@[0]);
                                    }
                                }
                            } else {
                                if k < 167 {
                                    if k < 166 {
                                        assert(k == 165);
                                        reveal_strlit("ASIX AX88772A Gigabit Ethernet");
                                        reveal_strlit("Ethernet");
                                    } else {
                                        assert(k == 166);
                                        reveal_strlit("ASIX AX88179A Gigabit Ethernet");
                                        reveal_strlit("Ethernet");
                                    }
                                } else {
                                    if k < 168 {
                                        assert(k == 167);
                                        reveal_strlit("ASIX AX88179B Gigabit Ethernet");
                                        reveal_strlit("Ethernet");
                                    } else {
                                        assert(k == 168);
                                        reveal_strlit("TP-Link UE300 Gigabit Ethernet");
                                        reveal_strlit("Ethernet");
                                    }
                                }
                            }
                        } else {
                            if k < 173 {
                                if k < 171 {
                                    if k < 170 {
                                        assert(k == 169);
                                        reveal_strlit("TP-Link UE306 USB-C Ethernet");
                                        reveal_strlit("Ethernet");
                                    } else {
                                        assert(k == 170);
                                        reveal_strlit("TP-Link UE308 USB-C 2.5G Ethernet");
                                        reveal_strlit("Ethernet");
                                    }
                                } else {
                                    if k < 172 {
                                        assert(k == 171);
                                        reveal_strlit("Realtek RTL8152 Fast Ethernet");
                                        reveal_strlit("Ethernet");
                                    } else {
                                        assert(k == 172);
                                        reveal_strlit("Realtek RTL8153 Gigabit Ethernet");
                                        reveal_strlit("Ethernet");
                                    }
                                }
                            } else {
                                if k < 175 {
                                    if k < 174 {
                                        assert(k == 173);
                                        reveal_strlit("Realtek RTL8156 2.5G Ethernet");
                                        reveal_strlit("Ethernet");
                                    } else {
                                        assert(k == 174);
                                        reveal_strlit("LG USB-C to Gigabit Ethernet");
                                        reveal_strlit("Ethernet");
                                    }
                                } else {
                                    if k < 176 {
                                        assert(k == 175);
                                        reveal_strlit("Lenovo USB-C to Ethernet");
                                        reveal_strlit("Ethernet");
                                    } else {
                                        assert(k == 176);
                                        reveal_strlit("ThinkPad USB-C Ethernet");
                                        reveal_strlit("Ethernet");
                                    }
                                }
                            }
                        }
                    } else {
                        if k < 185 {
                            if k < 181 {
                                if k < 179 {
                                    if k < 178 {
                                        assert(k == 177);
                                        reveal_strlit("Amazon Basics USB-C Ethernet");
                                        reveal_strlit("Ethernet");
                                    } else {
                                        assert(k == 178);
                                        reveal_strlit("Anker USB-C to Ethernet (2.5G)");
                                        reveal_strlit("Ethernet");
                                    }
                                } else {
                                    if k < 180 {
                                        assert(k == 179);
                                        reveal_strlit("Microchip USB 3.0 Hub");
                                        reveal_strlit("Hub");
                                    } else {
                                        assert(k == 180);
                                        reveal_strlit("VIA Labs USB 3.1 Hub");
                                        reveal_strlit("Hub");
                                    }
                                }
                            } else {
                                if k < 183 {
                                    if k < 182 {
                                        assert(k == 181);
                                        reveal_strlit("VIA Labs USB 2.0 Hub");
                                        reveal_strlit("Hub");
                                    } else {
                                        assert(k == 182);
                                        reveal_strlit("Genesys Logic USB-C Hub");
                                        reveal_strlit("Hub");
                                    }
                                } else {
                                    if k < 184 {
                                        assert(k == 183);
                                        reveal_strlit("ASMedia USB-C Hub Controller");
                                        reveal_strlit("Hub");
                                    } else {
                                        assert(k == 184);
                                        reveal_strlit("CalDigit TS4 Thunderbolt Dock");
                                        reveal_strlit("Dock");
                                    }
                                }
                            }
                        } else {
                            if k < 189 {
                                if k < 187 {
                                    if k < 186 {
                                        assert(k == 185);
                                        reveal_strlit("CalDigit TS3 Plus Dock");
                                        reveal_strlit("Dock");
                                    } else {
                                        assert(k == 186);
                                        reveal_strlit("UGREEN USB-C Dock (Triple 4K)");
                                        reveal_strlit("Dock");
                                    }
                                } else {
                                    if k < 188 {
                                        assert(k == 187);
                                        reveal_strlit("UGREEN USB-C Hub 7-in-1");
                                        reveal_strlit("Dock");
                                    } else {
                                        assert(k == 188);
                                        reveal_strlit("Anker 577 USB-C Dock");
                                        reveal_strlit("Dock");
                                    }
                                }
                            } else {
                                if k < 191 {
                                    if k < 190 {
                                        assert(k == 189);
                                        reveal_strlit("Anker PowerExpand 8-in-1");
                                        reveal_strlit("Hub");
                                    } else {
                                        assert(k == 190);
                                        reveal_strlit("Lenovo ThinkPad USB-C Dock Gen 2");
                                        reveal_strlit("Dock");
                                    }
                                } else {
                                    if k < 192 {
                                        assert(k == 191);
                                        reveal_strlit("Lenovo Thunderbolt 4 Dock");
                                        reveal_strlit("Dock");
                                    } else {
                                        assert(k == 192);
                                        reveal_strlit("ThinkPad Universal USB-C Dock");
                                        reveal_strlit("Dock");
                                    }
                                }
                            }
                        }
                    }
                }
            } else {
                if k < 225 {
                    if k < 209 {
                        if k < 201 {
                            if k < 197 {
                                if k < 195 {
                                    if k < 194 {
                                        assert(k == 193);
                                        reveal_strlit("DisplayLink USB-C to HDMI");
                                        reveal_strlit("Display Adapter");
                                    } else {
                                        assert(k == 194);
                                        reveal_strlit("DisplayLink USB-C to DisplayPort");
                                        reveal_strlit("Display Adapter");
                                    }
                                } else {
                                    if k < 196 {
                                        assert(k == 195);
                                        reveal_strlit("DisplayLink USB-C Dual HDMI");
                                        reveal_strlit("Display Adapter");
                                    } else {
                                        assert(k == 196);
                                        reveal_strlit("UGREEN USB-C to HDMI 4K60Hz");
                                        reveal_strlit("Display Adapter");
                                    }
                                }
                            } else {
                                if k < 199 {
                                    if k < 198 {
                                        assert(k == 197);
                                        reveal_strlit("UGREEN USB-C to DP 8K");
                                        reveal_strlit("Display Adapter");
                                    } else {
                                        assert(k == 198);
                                        reveal_strlit("Anker USB-C to HDMI Adapter");
                                        reveal_strlit("Display Adapter");
                                    }
                                } else {
                                    if k < 200 {
                                        assert(k == 199);
                                        reveal_strlit("Apple 140W USB-C Power Adapter");
                                        reveal_strlit("Charger");
                                        assert("Charger"@[0] != "Unknown"@[0]);
                                    } else {
                                        assert(k == 200);
                                        reveal_strlit("Apple 96W USB-C Power Adapter");
                                        reveal_strlit("Charger");
                                        assert("Charger"@[0] != "Unknown"@[0]);
                                    }
                                }
                            }
                        } else {
                            if k < 205 {
                                if k < 203 {
                                    if k < 202 {
                                        assert(k == 201);
                                        reveal_strlit("Anker 737 Power Bank (240W)");
                                        reveal_strlit("Power Bank");
                                    } else {
                                        assert(k == 202);
                                        reveal_strlit("Anker 548 Power Bank (192Wh)");
                                        reveal_strlit("Power Bank");
                                    }
                                } else {
                                    if k < 204 {
                                        assert(k == 203);
                                        reveal_strlit("Anker 100W GaN Charger");
                                        reveal_strlit("Charger");
                                        assert("Charger"@[0] != "Unknown"@[0]);
                                    } else {
                                        assert(k == 204);
                                        reveal_strlit("UGREEN 100W GaN Charger");
                                        reveal_strlit("Charger");
                                        assert("Charger"@[0] != "Unknown"@[0]);
                                    }
                                }
                            } else {
                                if k < 207 {
                                    if k < 206 {
                                        assert(k == 205);
                                        reveal_strlit("UGREEN Nexode 140W Charger");
                                        reveal_strlit("Charger");
                                        assert("Charger"@[0] != "Unknown"@[0]);
                                    } else {
                                        assert(k == 206);
                                        reveal_strlit("Baseus 100W GaN Charger");
                                        reveal_strlit("Charger");
                                        assert("Charger"@[0] != "Unknown"@[0]);
                                    }
                                } else {
                                    if k < 208 {
                                        assert(k == 207);
                                        reveal_strlit("Baseus 65W GaN Mini Charger");
                                        reveal_strlit("Charger");
                                        assert("Charger"@[0] != "Unknown"@[0]);
                                    } else {
                                        assert(k == 208);
                                        reveal_strlit("NXP PD Controller (TCPC)");
                                        reveal_strlit("PD Controller");
                                    }
                                }
                            }
                        }
                    } else {
                        if k < 217 {
                            if k < 213 {
                                if k < 211 {
                                    if k < 210 {
                                        assert(k == 209);
                                        reveal_strlit("Cypress CYPD PD Controller");
                                        reveal_strlit("PD Controller");
                                    } else {
                                        assert(k == 210);
                                        reveal_strlit("GaN Power Controller");
                                        reveal_strlit("PD Controller");
                                    }
                                } else {
                                    if k < 212 {
                                        assert(k == 211);
                                        reveal_strlit("Teensy 4.x (USB Serial)");
                                        reveal_strlit("Dev Board");
                                    } else {
                                        assert(k == 212);
                                        reveal_strlit("Teensy 3.x/4.x (Raw HID)");
                                        reveal_strlit("Dev Board");
                                    }
                                }
                            } else {
                                if k < 215 {
                                    if k < 214 {
                                        assert(k == 213);
                                        reveal_strlit("Arduino Leonardo/Micro");
                                        reveal_strlit("Dev Board");
                                    } else {
                                        assert(k == 214);
                                        reveal_strlit("Arduino Mega 2560 R3");
                                        reveal_strlit("Dev Board");
                                    }
                                } else {
                                    if k < 216 {
                                        assert(k == 215);
                                        reveal_strlit("Arduino Uno R3");
                                        reveal_strlit("Dev Board");
                                    } else {
                                        assert(k == 216);
                                        reveal_strlit("Arduino Uno R3 (Alt)");
                                        reveal_strlit("Dev Board");
                                    }
                                }
                            }
                        } else {
                            if k < 221 {
                                if k < 219 {
                                    if k < 218 {
                                        assert(k == 217);
                                        reveal_strlit("Arduino Mega 2560 (Alt)");
                                        reveal_strlit("Dev Board");
                                    } else {
                                        assert(k == 218);
                                        reveal_strlit("Arduino Leonardo");
                                        reveal_strlit("Dev Board");
                                    }
                                } else {
                                    if k < 220 {
                                        assert(k == 219);
                                        reveal_strlit("Arduino Nano Every");
                                        reveal_strlit("Dev Board");
                                    } else {
                                        assert(k == 220);
                                        reveal_strlit("Arduino Uno WiFi Rev2");
                                        reveal_strlit("Dev Board");
                                    }
                                }
                            } else {
                                if k < 223 {
                                    if k < 222 {
                                        assert(k == 221);
                                        reveal_strlit("Adafruit Feather M0");
                                        reveal_strlit("Dev Board");
                                    } else {
                                        assert(k == 222);
                                        reveal_strlit("Adafruit Circuit Playground Express");
                                        reveal_strlit("Dev Board");
                                    }
                                } else {
                                    if k < 224 {
                                        assert(k == 223);
                                        reveal_strlit("Espressif ESP32-S2/S3");
                                        reveal_strlit("Dev Board");
                                    } else {
                                        assert(k == 224);
                                        reveal_strlit("Espressif ESP32-C3");
                                        reveal_strlit("Dev Board");
                                    }
                                }
                            }
                        }
                    }
                } else {
                    if k < 241 {
                        if k < 233 {
                            if k < 229 {
                                if k < 227 {
                                    if k < 226 {
                                        assert(k == 225);
                                        reveal_strlit("Raspberry Pi Pico (USB)");
                                        reveal_strlit("Dev Board");
                                    } else {
                                        assert(k == 226);
                                        reveal_strlit("Raspberry Pi Pico W");
                                        reveal_strlit("Dev Board");
                                    }
                                } else {
                                    if k < 228 {
                                        assert(k == 227);
                                        reveal_strlit("CH340 Serial Bridge");
                                        reveal_strlit("Serial Bridge");
                                    } else {
                                        assert(k == 228);
                                        reveal_strlit("CH9102 Serial Bridge");
                                        reveal_strlit("Serial Bridge");
                                    }
                                }
                            } else {
                                if k < 231 {
                                    if k < 230 {
                                        assert(k == 229);
                                        reveal_strlit("CH340 USB-Serial");
                                        reveal_strlit("Serial Bridge");
                                    } else {
                                        assert(k == 230);
                                        reveal_strlit("CP2102 USB-UART Bridge");
                                        reveal_strlit("Serial Bridge");
                                    }
                                } else {
                                    if k < 232 {
                                        assert(k == 231);
                                        reveal_strlit("CP2105 Dual UART Bridge");
                                        reveal_strlit("Serial Bridge");
                                    } else {
                                        assert(k == 232);
                                        reveal_strlit("FTDI FT232R USB-Serial");
                                        reveal_strlit("Serial Bridge");
                                    }
                                }
                            }
                        } else {
                            if k < 237 {
                                if k < 235 {
                                    if k < 234 {
                                        assert(k == 233);
                                        reveal_strlit("FTDI FT2232H Dual UART");
                                        reveal_strlit("Serial Bridge");
                                    } else {
                                        assert(k == 234);
                                        reveal_strlit("FTDI FT-X Series");
                                        reveal_strlit("Serial Bridge");
                                    }
                                } else {
                                    if k < 236 {
                                        assert(k == 235);
                                        reveal_strlit("Prolific PL2303 USB-Serial");
                                        reveal_strlit("Serial Bridge");
                                    } else {
                                        assert(k == 236);
                                        reveal_strlit("Prolific PL2303GS USB-Serial");
                                        reveal_strlit("Serial Bridge");
                                    }
                                }
                            } else {
                                if k < 239 {
                                    if k < 238 {
                                        assert(k == 237);
                                        reveal_strlit("Novation Launchpad X");
                                        reveal_strlit("MIDI Controller");
                                    } else {
                                        assert(k == 238);
                                        reveal_strlit("Novation Launch Control XL");
                                        reveal_strlit("MIDI Controller");
                                    }
                                } else {
                                    if k < 240 {
                                        assert(k == 239);
                                        reveal_strlit("Novation FLkey 49");
                                        reveal_strlit("MIDI Controller");
                                    } else {
                                        assert(k == 240);
                                        reveal_strlit("Akai MPK Mini MK3");
                                        reveal_strlit("MIDI Controller");
                                    }
                                }
                            }
                        }
                    } else {
                        if k < 249 {
                            if k < 245 {
                                if k < 243 {
                                    if k < 242 {
                                        assert(k == 241);
                                        reveal_strlit("Akai APC40 mkII");
                                        reveal_strlit("MIDI Controller");
                                    } else {
                                        assert(k == 242);
                                        reveal_strlit("Arturia MiniLab 3");
                                        reveal_strlit("MIDI Controller");
                                    }
                                } else {
                                    if k < 244 {
                                        assert(k == 243);
                                        reveal_strlit("Arturia KeyStep");
                                        reveal_strlit("MIDI Controller");
                                    } else {
                                        assert(k == 244);
                                        reveal_strlit("Native Instruments Maschine Mikro");
                                        reveal_strlit("MIDI Controller");
                                    }
                                }
                            } else {
                                if k < 247 {
                                    if k < 246 {
                                        assert(k == 245);
                                        reveal_strlit("Cypress FX3 SuperSpeed USB Controller");
                                        reveal_strlit("USB Controller");
                                    } else {
                                        assert(k == 246);
                                        reveal_strlit("Cypress FX3S USB Storage Controller");
                                        reveal_strlit("Storage Controller");
                                    }
                                } else {
                                    if k < 248 {
                                        assert(k == 247);
                                        reveal_strlit("Xilinx FPGA USB");
                                        reveal_strlit("Dev Board");
                                    } else {
                                        assert(k == 248);
                                        reveal_strlit("Xerox C400 Printer");
                                        reveal_strlit("Printer");
                                        assert("Printer"@[0] != "Unknown"@[0]);
                                    }
                                }
                            }
                        } else {
                            if k < 253 {
                                if k < 251 {
                                    if k < 250 {
                                        assert(k == 249);
                                        reveal_strlit("Canon imageCLASS Printer");
                                        reveal_strlit("Printer");
                                        assert("Printer"@[0] != "Unknown"@[0]);
                                    } else {
                                        assert(k == 250);
                                        reveal_strlit("Epson ET-4850 Printer");
                                        reveal_strlit("Printer");
                                        assert("Printer"@[0] != "Unknown"@[0]);
                                    }
                                } else {
                                    if k < 252 {
                                        assert(k == 251);
                                        reveal_strlit("Brother HL-L2370DW Printer");
                                        reveal_strlit("Printer");
                                        assert("Printer"@[0] != "Unknown"@[0]);
                                    } else {
                                        assert(k == 252);
                                        reveal_strlit("Xiaomi POCO X7");
                                        reveal_strlit("Mobile");
                                    }
                                }
                            } else {
                                if k < 255 {
                                    if k < 254 {
                                        assert(k == 253);
                                        reveal_strlit("Creative Live! Cam Sync 1080p V2");
                                        reveal_strlit("Webcam");
                                    } else {
                                        assert(k == 254);
                                        reveal_strlit("USB3 PLUS (HDMI Capture)");
                                        reveal_strlit("Camera");
                                    }
                                } else {
                                    if k < 256 {
                                        assert(k == 255);
                                        reveal_strlit("Realtek Bluetooth Adapter");
                                        reveal_strlit("Bluetooth");
                                    } else {
                                        if k < 257 {
                                            assert(k == 256);
                                            reveal_strlit("Huawei USB Composite (KT Audio/Input)");
                                            reveal_strlit("Mobile");
                                        } else {
                                            assert(k == 257);
                                            reveal_strlit("ASUS USB Composite (AURA LED)");
                                            reveal_strlit("Computing");
                                        }
                                    }
                                }
                            }
                        }
                    }
                }
            }
        }
    }
}

} // verus!
