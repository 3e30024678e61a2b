use lpc_iap::target_yaml::{generate_target_yaml, Chip, Chips, GenerateError, MemoryLoc};

fn mem(id: &str, derived_from: &str, location: &str, size: &str) -> MemoryLoc {
    MemoryLoc {
        id: id.as_bytes().to_vec(),
        derived_from: derived_from.as_bytes().to_vec(),
        location: location.as_bytes().to_vec(),
        size: size.as_bytes().to_vec(),
    }
}

fn chip(id: &str, family: &str, memory: Vec<MemoryLoc>) -> Chip {
    Chip { id: id.as_bytes().to_vec(), family: family.as_bytes().to_vec(), memory }
}

fn text(lines: &[(bool, Vec<u8>)]) -> Vec<(bool, String)> {
    lines.iter().map(|(f, t)| (*f, String::from_utf8(t.clone()).unwrap())).collect()
}

#[test]
fn generates_sorted_description() {
    let chips = Chips {
        chips: vec![
            chip(
                "LPC1114",
                "LPC11xx",
                vec![
                    mem("PROGRAM_FLASH", "Flash", "0x0", "0x8000"),
                    mem("EEPROM", "EEPROM", "0x03200000", "0x1000"),
                    mem("Ram0_8", "RAM", "0x10000000", "0x2000"),
                ],
            ),
            chip("LPC1110", "LPC11xy", vec![mem("PROGRAM_FLASH", "Flash", "0x0", "0x1000")]),
        ],
    };
    let y = generate_target_yaml(chips).ok().unwrap();
    assert_eq!(y.family, b"LPC11xx".to_vec());
    let got: Vec<(bool, Vec<u8>)> = y.lines.iter().map(|l| (l.to_file, l.text.clone())).collect();
    let expected: Vec<(bool, String)> = vec![
        (true, "name: LPC11xx"),
        (true, "variants:"),
        (true, "- name: LPC1110"),
        (true, "  cores:"),
        (true, "  - name: main"),
        (true, "    type: armv6m"),
        (true, "    core_access_options: !Arm"),
        (true, "      ap: !v1 0"),
        (true, "  memory_map:"),
        (true, "  - !Nvm"),
        (true, "    name: PROGRAM_FLASH"),
        (true, "    range:"),
        (true, "      start: 0x0"),
        (true, "      end: 0x1000"),
        (true, "    cores:"),
        (true, "      - main"),
        (true, "- name: LPC1114"),
        (true, "  cores:"),
        (true, "  - name: main"),
        (true, "    type: armv6m"),
        (true, "    core_access_options: !Arm"),
        (true, "      ap: !v1 0"),
        (true, "  memory_map:"),
        (false, "## unhandled memory type EEPROM"),
        (true, "  - !Nvm"),
        (true, "    name: PROGRAM_FLASH"),
        (true, "    range:"),
        (true, "      start: 0x0"),
        (true, "      end: 0x8000"),
        (true, "    cores:"),
        (true, "      - main"),
        (true, "  - !Ram"),
        (true, "    name: Ram0_8"),
        (true, "    range:"),
        (true, "      start: 0x10000000"),
        (true, "      end: 0x10002000"),
        (true, "    cores:"),
        (true, "      - main"),
    ]
    .into_iter()
    .map(|(f, t)| (f, t.to_string()))
    .collect();
    assert_eq!(text(&got), expected);
}

#[test]
fn equal_names_keep_their_order() {
    let chips = Chips {
        chips: vec![
            chip("B", "F", vec![]),
            chip("A", "F", vec![mem("first", "Flash", "0x0", "0x10")]),
            chip("A", "F", vec![mem("second", "Flash", "0x0", "0x10")]),
            chip("AB", "F", vec![]),
        ],
    };
    let y = generate_target_yaml(chips).ok().unwrap();
    let names: Vec<String> = y
        .lines
        .iter()
        .map(|l| String::from_utf8(l.text.clone()).unwrap())
        .filter(|t| t.starts_with("- name: ") || t.starts_with("    name: "))
        .collect();
    assert_eq!(names, vec!["- name: A", "    name: first", "- name: A", "    name: second", "- name: AB", "- name: B"]);
}

#[test]
fn no_chips_is_an_error() {
    assert!(matches!(generate_target_yaml(Chips { chips: vec![] }), Err(GenerateError::NoChips)));
}

#[test]
fn bad_location_is_an_error() {
    let chips = Chips { chips: vec![chip("A", "F", vec![mem("x", "Flash", "0xZZ", "0x10")])] };
    assert!(matches!(generate_target_yaml(chips), Err(GenerateError::InvalidMemory)));
    let chips = Chips { chips: vec![chip("A", "F", vec![mem("x", "Other", "0x10", "")])] };
    assert!(matches!(generate_target_yaml(chips), Err(GenerateError::InvalidMemory)));
}

#[test]
fn region_past_address_space_is_an_error() {
    let loc = format!("0x{:X}", usize::MAX);
    let chips = Chips { chips: vec![chip("A", "F", vec![mem("x", "RAM", &loc, "0x1")])] };
    assert!(matches!(generate_target_yaml(chips), Err(GenerateError::InvalidMemory)));
}
