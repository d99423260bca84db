use skirmish_core::script::{Archetype, ScriptCommand, parse_script_line, wants_random};

#[test]
fn parses_delay_lines() {
    let r = parse_script_line(b"delay,2.5");
    assert_eq!(r, Some(ScriptCommand::Delay { seconds: 2_500 }));
}

#[test]
fn parses_spawn_lines_with_decimals() {
    let r = parse_script_line(b"turret,100,200.25");
    assert_eq!(
        r,
        Some(ScriptCommand::Spawn { archetype: Archetype::Turret, x: 100_000, y: 200_250 })
    );
}

#[test]
fn parses_randomized_coordinates() {
    let r = parse_script_line(b"speedy,-1.0,-1.0");
    match r {
        Some(ScriptCommand::Spawn { archetype, x, y }) => {
            assert_eq!(archetype, Archetype::Speedy);
            assert!(wants_random(x));
            assert!(wants_random(y));
        }
        _ => panic!("spawn line expected"),
    }
}

#[test]
fn parses_every_archetype_name() {
    let names: [(&[u8], Archetype); 8] = [
        (b"picket", Archetype::Picket),
        (b"drone", Archetype::Drone),
        (b"speedy", Archetype::Speedy),
        (b"lunker", Archetype::Lunker),
        (b"mine_layer", Archetype::MineLayer),
        (b"rammer", Archetype::Rammer),
        (b"turret", Archetype::Turret),
        (b"boss", Archetype::Boss),
    ];
    for (name, arch) in names.iter() {
        let mut line: Vec<u8> = Vec::new();
        line.extend_from_slice(name);
        line.extend_from_slice(b",10,20");
        match parse_script_line(&line) {
            Some(ScriptCommand::Spawn { archetype, x, y }) => {
                assert_eq!(archetype, *arch);
                assert_eq!(x, 10_000);
                assert_eq!(y, 20_000);
            }
            _ => panic!("spawn line expected"),
        }
    }
}

#[test]
fn rejects_malformed_lines() {
    assert_eq!(parse_script_line(b""), None);
    assert_eq!(parse_script_line(b"turret"), None);
    assert_eq!(parse_script_line(b"turret,abc,5"), None);
    assert_eq!(parse_script_line(b"warship,1,2"), None);
    assert_eq!(parse_script_line(b"delay,-3"), None);
    assert_eq!(parse_script_line(b"turret,1."), None);
}

#[test]
fn truncates_long_fractions() {
    let r = parse_script_line(b"delay,1.23456");
    assert_eq!(r, Some(ScriptCommand::Delay { seconds: 1_234 }));
}

#[test]
fn parses_negative_coordinates() {
    let r = parse_script_line(b"boss,-250.5,-0.75");
    assert_eq!(
        r,
        Some(ScriptCommand::Spawn { archetype: Archetype::Boss, x: -250_500, y: -750 })
    );
}
