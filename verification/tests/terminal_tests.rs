use riko::terminal::{raw_mode, ModeFlags, TerminalModes};

fn linux_flags() -> ModeFlags {
    ModeFlags {
        echo: 0o10,
        icanon: 0o2,
        isig: 0o1,
        iexten: 0o100000,
        ixon: 0o2000,
        icrnl: 0o400,
        brkint: 0o2,
        inpck: 0o20,
        istrip: 0o40,
        opost: 0o1,
        cs8: 0o60,
    }
}

#[test]
fn raw_mode_clears_and_sets_flags() {
    let m = TerminalModes {
        input_flags: 0o2000 | 0o400 | 0o2 | 0o20 | 0o40 | 0o1,
        output_flags: 0o1 | 0o4,
        control_flags: 0o200,
        local_flags: 0o10 | 0o2 | 0o1 | 0o100000 | 0o1000,
        min_bytes: 1,
        read_timeout: 0,
    };
    let r = raw_mode(m, &linux_flags());
    assert_eq!(r.input_flags, 0o1);
    assert_eq!(r.output_flags, 0o4);
    assert_eq!(r.control_flags, 0o260);
    assert_eq!(r.local_flags, 0o1000);
    assert_eq!(r.min_bytes, 0);
    assert_eq!(r.read_timeout, 1);
}

#[test]
fn raw_mode_is_idempotent() {
    let m = TerminalModes {
        input_flags: 0xffff,
        output_flags: 0xffff,
        control_flags: 0,
        local_flags: 0xffff_ffff,
        min_bytes: 5,
        read_timeout: 9,
    };
    let f = linux_flags();
    let once = raw_mode(m, &f);
    assert_eq!(raw_mode(once, &f), once);
}
