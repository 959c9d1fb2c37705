use sandbox_backend::seccomp::{bpf_jump, bpf_stmt, build_denylist_filter, build_seccomp_filter, SockFilter, AUDIT_ARCH_X86_64, SECCOMP_RET_ALLOW};

/// Runs a classic-BPF program on a system call as the kernel would.
fn run(prog: &[SockFilter], nr: u32, arch: u32) -> Option<u32> {
    let mut pc = 0usize;
    let mut acc = 0u32;
    while pc < prog.len() {
        let ins = prog[pc];
        match ins.code {
            0x20 => {
                acc = match ins.k {
                    0 => nr,
                    4 => arch,
                    _ => return None,
                };
                pc += 1;
            }
            0x15 => {
                pc += 1 + if acc == ins.k { ins.jt as usize } else { ins.jf as usize };
            }
            0x06 => return Some(ins.k),
            _ => return None,
        }
    }
    None
}

#[test]
fn stmt_and_jump_layout() {
    assert_eq!(bpf_stmt(0x06, 7), SockFilter { code: 0x06, jt: 0, jf: 0, k: 7 });
    assert_eq!(bpf_jump(0x15, 9, 1, 2), SockFilter { code: 0x15, jt: 1, jf: 2, k: 9 });
}

#[test]
fn sandbox_filter_denies_listed_calls_with_eperm() {
    let prog = build_seccomp_filter();
    assert_eq!(prog.len(), 18 + 5);
    // ptrace, mount, chroot, perf_event_open
    for nr in [101u32, 165, 161, 298] {
        assert_eq!(run(&prog, nr, AUDIT_ARCH_X86_64), Some(0x0005_0001));
    }
}

#[test]
fn sandbox_filter_allows_other_calls() {
    let prog = build_seccomp_filter();
    // read, write, openat, exit_group
    for nr in [0u32, 1, 257, 231] {
        assert_eq!(run(&prog, nr, AUDIT_ARCH_X86_64), Some(SECCOMP_RET_ALLOW));
    }
}

#[test]
fn sandbox_filter_allows_other_architectures() {
    let prog = build_seccomp_filter();
    assert_eq!(run(&prog, 101, 0x4000_0003), Some(SECCOMP_RET_ALLOW));
}

#[test]
fn denylist_program_shape() {
    let prog = build_denylist_filter(&[5, 9], 13);
    assert_eq!(prog.len(), 7);
    assert_eq!(prog[0], SockFilter { code: 0x20, jt: 0, jf: 0, k: 4 });
    assert_eq!(prog[1], SockFilter { code: 0x15, jt: 0, jf: 3, k: AUDIT_ARCH_X86_64 });
    assert_eq!(prog[2], SockFilter { code: 0x20, jt: 0, jf: 0, k: 0 });
    assert_eq!(prog[3], SockFilter { code: 0x15, jt: 2, jf: 0, k: 5 });
    assert_eq!(prog[4], SockFilter { code: 0x15, jt: 1, jf: 0, k: 9 });
    assert_eq!(prog[5], SockFilter { code: 0x06, jt: 0, jf: 0, k: SECCOMP_RET_ALLOW });
    assert_eq!(prog[6], SockFilter { code: 0x06, jt: 0, jf: 0, k: 0x0005_000D });
    assert_eq!(run(&prog, 9, AUDIT_ARCH_X86_64), Some(0x0005_000D));
    assert_eq!(run(&prog, 6, AUDIT_ARCH_X86_64), Some(SECCOMP_RET_ALLOW));
}

#[test]
fn empty_denylist_allows_everything() {
    let prog = build_denylist_filter(&[], 1);
    assert_eq!(prog.len(), 5);
    assert_eq!(run(&prog, 101, AUDIT_ARCH_X86_64), Some(SECCOMP_RET_ALLOW));
}
