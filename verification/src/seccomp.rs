//! The seccomp syscall denylist installed in sandboxed children.
//!
//! Strategy: allow every syscall by default and answer the dangerous ones
//! with `EPERM`. Calls made under an architecture other than x86-64 are
//! allowed (the syscall numbers below are those of x86-64).
//!
//! The program is produced here as plain classic-BPF instructions; the
//! instructions are also given a meaning (`bpf_run`), so that what the
//! installed filter answers for each call is a proved property of the
//! program, not only of its layout.

use vstd::prelude::*;

verus! {

/// One classic-BPF instruction, laid out as the kernel's `sock_filter`.
#[derive(Debug, Clone, Copy, PartialEq, Eq, Structural)]
pub struct SockFilter {
    pub code: u16,
    pub jt: u8,
    pub jf: u8,
    pub k: u32,
}

// BPF instruction class and mode constants.
pub const BPF_LD: u16 = 0x00;
pub const BPF_W: u16 = 0x00;
pub const BPF_ABS: u16 = 0x20;
pub const BPF_JMP: u16 = 0x05;
pub const BPF_JEQ: u16 = 0x10;
pub const BPF_RET: u16 = 0x06;
pub const BPF_K: u16 = 0x00;

// seccomp return codes.
pub const SECCOMP_RET_ALLOW: u32 = 0x7fff_0000;
pub const SECCOMP_RET_ERRNO_BASE: u32 = 0x0005_0000;

/// `AUDIT_ARCH_X86_64`, the architecture tag of x86-64 system calls.
pub const AUDIT_ARCH_X86_64: u32 = 0xC000_003E;

// Offsets of the fields of `struct seccomp_data`.
pub const SECCOMP_DATA_NR_OFFSET: u32 = 0;
pub const SECCOMP_DATA_ARCH_OFFSET: u32 = 4;

/// Opcode of "load the 32-bit word at absolute offset k" (`BPF_LD|BPF_W|BPF_ABS`).
pub open spec fn op_load_abs() -> u16 { 0x20 }
/// Opcode of "jump if the accumulator equals k" (`BPF_JMP|BPF_JEQ|BPF_K`).
pub open spec fn op_jeq() -> u16 { 0x15 }
/// Opcode of "return k" (`BPF_RET|BPF_K`).
pub open spec fn op_ret() -> u16 { 0x06 }

/// Builds a BPF statement (no jump targets).
pub fn bpf_stmt(code: u16, k: u32) -> (r: SockFilter)
    ensures
        r == (SockFilter { code, jt: 0, jf: 0, k }),
{
    SockFilter { code, jt: 0, jf: 0, k }
}

/// Builds a BPF conditional jump.
pub fn bpf_jump(code: u16, k: u32, jt: u8, jf: u8) -> (r: SockFilter)
    ensures
        r == (SockFilter { code, jt, jf, k }),
{
    SockFilter { code, jt, jf, k }
}

/// What the kernel computes when it runs classic-BPF program `prog` from
/// instruction `pc` with accumulator `acc` on a system call with number
/// `nr` under architecture `arch`: `Some(k)` when the program returns `k`,
/// `None` when it would be rejected (unknown opcode, a load other than the
/// number or the architecture, or running off the end). Jumps only go
/// forward, so every run ends.
pub open spec fn bpf_run(prog: Seq<SockFilter>, pc: nat, acc: u32, nr: u32, arch: u32) -> Option<u32>
    decreases prog.len() - pc,
{
    if pc >= prog.len() {
        None
    } else {
        let ins = prog[pc as int];
        if ins.code == op_load_abs() {
            if ins.k == SECCOMP_DATA_NR_OFFSET {
                bpf_run(prog, pc + 1, nr, nr, arch)
            } else if ins.k == SECCOMP_DATA_ARCH_OFFSET {
                bpf_run(prog, pc + 1, arch, nr, arch)
            } else {
                None
            }
        } else if ins.code == op_jeq() {
            let target = if acc == ins.k { pc + 1 + ins.jt as nat } else { pc + 1 + ins.jf as nat };
            if target > prog.len() {
                None
            } else {
                bpf_run(prog, target, acc, nr, arch)
            }
        } else if ins.code == op_ret() {
            Some(ins.k)
        } else {
            None
        }
    }
}

/// The denylist program for syscall numbers `denied`, answering denied
/// calls with errno `errno`, instruction by instruction:
/// load arch; if arch != x86-64 jump to ALLOW; load nr; one equality test
/// per denied number, jumping to the errno return on a match; ALLOW; ERRNO.
pub open spec fn denylist_program(denied: Seq<i64>, errno: u32) -> Seq<SockFilter> {
    let n = denied.len();
    Seq::new(n + 5, |i: int|
        if i == 0 {
            SockFilter { code: op_load_abs(), jt: 0, jf: 0, k: SECCOMP_DATA_ARCH_OFFSET }
        } else if i == 1 {
            SockFilter { code: op_jeq(), jt: 0, jf: (n + 1) as u8, k: AUDIT_ARCH_X86_64 }
        } else if i == 2 {
            SockFilter { code: op_load_abs(), jt: 0, jf: 0, k: SECCOMP_DATA_NR_OFFSET }
        } else if i < n + 3 {
            SockFilter { code: op_jeq(), jt: (n - (i - 3)) as u8, jf: 0, k: denied[i - 3] as u32 }
        } else if i == n + 3 {
            SockFilter { code: op_ret(), jt: 0, jf: 0, k: SECCOMP_RET_ALLOW }
        } else {
            SockFilter { code: op_ret(), jt: 0, jf: 0, k: SECCOMP_RET_ERRNO_BASE | errno }
        }
    )
}

/// Whether system call number `nr` is one of `denied` (compared as the
/// 32-bit number the kernel hands to the filter).
pub open spec fn is_denied(denied: Seq<i64>, nr: u32) -> bool {
    exists|j: int| 0 <= j < denied.len() && (denied[j] as u32) == nr
}

/// The verdict the denylist policy gives a system call.
pub open spec fn denylist_verdict(denied: Seq<i64>, errno: u32, nr: u32, arch: u32) -> u32 {
    if arch == AUDIT_ARCH_X86_64 && is_denied(denied, nr) {
        SECCOMP_RET_ERRNO_BASE | errno
    } else {
        SECCOMP_RET_ALLOW
    }
}

proof fn lemma_denylist_tail(denied: Seq<i64>, errno: u32, i: nat, nr: u32, arch: u32)
    requires
        denied.len() <= 254,
        i <= denied.len(),
    ensures
        bpf_run(denylist_program(denied, errno), i + 3, nr, nr, arch) == (
            if exists|j: int| i <= j < denied.len() && (denied[j] as u32) == nr {
                Some(SECCOMP_RET_ERRNO_BASE | errno)
            } else {
                Some(SECCOMP_RET_ALLOW)
            }),
    decreases denied.len() - i,
{
    let p = denylist_program(denied, errno);
    let n = denied.len();
    if i < n {
        lemma_denylist_tail(denied, errno, i + 1, nr, arch);
        let ins = p[(i + 3) as int];
        assert(ins == SockFilter { code: op_jeq(), jt: (n - i) as u8, jf: 0, k: denied[i as int] as u32 });
        assert(p[(n + 4) as int] == SockFilter { code: op_ret(), jt: 0, jf: 0, k: SECCOMP_RET_ERRNO_BASE | errno });
        if (denied[i as int] as u32) == nr {
            assert(bpf_run(p, i + 3, nr, nr, arch) == bpf_run(p, n + 4, nr, nr, arch));
        } else {
            assert(bpf_run(p, i + 3, nr, nr, arch) == bpf_run(p, i + 4, nr, nr, arch));
            assert((exists|j: int| i <= j < n && (denied[j] as u32) == nr)
                == (exists|j: int| i + 1 <= j < n && (denied[j] as u32) == nr)) by {
                if exists|j: int| i <= j < n && (denied[j] as u32) == nr {
                    let j = choose|j: int| i <= j < n && (denied[j] as u32) == nr;
                    assert(j != i);
                }
            }
        }
    } else {
        assert(p[(n + 3) as int] == SockFilter { code: op_ret(), jt: 0, jf: 0, k: SECCOMP_RET_ALLOW });
    }
}

/// The denylist program answers exactly as the denylist policy says: for
/// every system call number and architecture, running the program gives
/// the policy's verdict.
pub proof fn lemma_denylist_program_verdict(denied: Seq<i64>, errno: u32, nr: u32, arch: u32)
    requires
        denied.len() <= 254,
    ensures
        bpf_run(denylist_program(denied, errno), 0, 0, nr, arch)
            == Some(denylist_verdict(denied, errno, nr, arch)),
{
    let p = denylist_program(denied, errno);
    let n = denied.len();
    assert(p[0] == SockFilter { code: op_load_abs(), jt: 0, jf: 0, k: SECCOMP_DATA_ARCH_OFFSET });
    assert(p[1] == SockFilter { code: op_jeq(), jt: 0, jf: (n + 1) as u8, k: AUDIT_ARCH_X86_64 });
    assert(p[2] == SockFilter { code: op_load_abs(), jt: 0, jf: 0, k: SECCOMP_DATA_NR_OFFSET });
    assert(bpf_run(p, 0, 0, nr, arch) == bpf_run(p, 1, arch, nr, arch));
    if arch == AUDIT_ARCH_X86_64 {
        assert(bpf_run(p, 1, arch, nr, arch) == bpf_run(p, 2, arch, nr, arch));
        assert(bpf_run(p, 2, arch, nr, arch) == bpf_run(p, 3, nr, nr, arch));
        lemma_denylist_tail(denied, errno, 0, nr, arch);
    } else {
        assert(bpf_run(p, 1, arch, nr, arch) == bpf_run(p, n + 3, arch, nr, arch));
        assert(p[(n + 3) as int] == SockFilter { code: op_ret(), jt: 0, jf: 0, k: SECCOMP_RET_ALLOW });
    }
}

/// Builds the denylist program for the given syscall numbers and errno.
pub fn build_denylist_filter(denied: &[i64], errno: u32) -> (prog: Vec<SockFilter>)
    requires
        denied@.len() <= 254,
    ensures
        prog@ == denylist_program(denied@, errno),
        forall|nr: u32, arch: u32|
            #[trigger] bpf_run(prog@, 0, 0, nr, arch) == Some(denylist_verdict(denied@, errno, nr, arch)),
{
    let n = denied.len() as u8;
    let mut prog: Vec<SockFilter> = Vec::with_capacity(4 + denied.len() + 1);
    let ghost spec_prog = denylist_program(denied@, errno);

    assert((BPF_LD | BPF_W | BPF_ABS) == 0x20u16) by (bit_vector);
    assert((BPF_JMP | BPF_JEQ | BPF_K) == 0x15u16) by (bit_vector);
    assert((BPF_RET | BPF_K) == 0x06u16) by (bit_vector);

    // Instruction 0: load the architecture field.
    prog.push(bpf_stmt(BPF_LD | BPF_W | BPF_ABS, SECCOMP_DATA_ARCH_OFFSET));
    // Instruction 1: if arch != x86_64, jump to ALLOW (at 3 + n; jf counts from 2).
    let allow_offset = n + 1;
    prog.push(bpf_jump(BPF_JMP | BPF_JEQ | BPF_K, AUDIT_ARCH_X86_64, 0, allow_offset));
    // Instruction 2: load the syscall number.
    prog.push(bpf_stmt(BPF_LD | BPF_W | BPF_ABS, SECCOMP_DATA_NR_OFFSET));

    // Instructions 3..3+n: one test per denied syscall; a match jumps to EPERM.
    let mut i: usize = 0;
    while i < denied.len()
        invariant
            n as nat == denied@.len(),
            denied@.len() <= 254,
            spec_prog == denylist_program(denied@, errno),
            0 <= i <= denied@.len(),
            prog@.len() == i + 3,
            forall|j: int| 0 <= j < i + 3 ==> prog@[j] == spec_prog[j],
        decreases denied@.len() - i,
    {
        let remaining = n - (i as u8) - 1;
        let syscall = denied[i];
        let ghost before = prog@;
        assert((BPF_JMP | BPF_JEQ | BPF_K) == 0x15u16) by (bit_vector);
        let ins = bpf_jump(BPF_JMP | BPF_JEQ | BPF_K, syscall as u32, remaining + 1, 0);
        assert(ins == spec_prog[i + 3]);
        prog.push(ins);
        assert(prog@ == before.push(ins));
        i += 1;
    }

    // ALLOW, then EPERM.
    prog.push(bpf_stmt(BPF_RET | BPF_K, SECCOMP_RET_ALLOW));
    prog.push(bpf_stmt(BPF_RET | BPF_K, SECCOMP_RET_ERRNO_BASE | errno));

    assert(prog@ =~= spec_prog);
    proof {
        assert forall|nr: u32, arch: u32|
            #[trigger] bpf_run(prog@, 0, 0, nr, arch) == Some(denylist_verdict(denied@, errno, nr, arch)) by {
            lemma_denylist_program_verdict(denied@, errno, nr, arch);
        }
    }
    prog
}

/// Numbers of the system calls the sandbox denies, on x86-64 Linux:
/// ptrace, kexec_load, init_module, finit_module, delete_module, setuid,
/// setgid, setreuid, setregid, setresuid, setresgid, mount, umount2,
/// pivot_root, chroot, process_vm_readv, process_vm_writev, perf_event_open.
pub open spec fn denied_syscalls() -> Seq<i64> {
    seq![101i64, 246, 175, 313, 176, 105, 106, 113, 114, 117, 119, 165, 166, 155, 161, 310, 311, 298]
}

/// The `libc` crate's `SYS_*` constants of the denied system calls, in
/// denylist order. The contract states the values that the libc source
/// (`unix/linux_like/linux/gnu/b64/x86_64/not_x32.rs`) gives them on x86-64
/// Linux, the only target the filter is for (it allows every call of any
/// other architecture); built for another target, the constants differ and
/// this contract does not hold.
#[verifier::external_body]
fn denied_syscall_numbers() -> (v: Vec<i64>)
    ensures
        v@ == denied_syscalls(),
{
    vec![
        libc::SYS_ptrace, libc::SYS_kexec_load, libc::SYS_init_module, libc::SYS_finit_module,
        libc::SYS_delete_module, libc::SYS_setuid, libc::SYS_setgid, libc::SYS_setreuid,
        libc::SYS_setregid, libc::SYS_setresuid, libc::SYS_setresgid, libc::SYS_mount,
        libc::SYS_umount2, libc::SYS_pivot_root, libc::SYS_chroot, libc::SYS_process_vm_readv,
        libc::SYS_process_vm_writev, libc::SYS_perf_event_open,
    ]
}

/// The `libc` crate's `EPERM` errno; its source gives it the value 1.
#[verifier::external_body]
fn errno_eperm() -> (e: u32)
    ensures
        e == 1,
{
    libc::EPERM as u32
}

/// The verdict of the sandbox's seccomp policy for a system call: on
/// x86-64, denied calls fail with `EPERM` (`SECCOMP_RET_ERRNO | 1`);
/// everything else is allowed.
pub open spec fn sandbox_verdict(nr: u32, arch: u32) -> u32 {
    if arch == AUDIT_ARCH_X86_64 && denied_syscalls().contains(nr as i64) {
        0x0005_0001u32
    } else {
        SECCOMP_RET_ALLOW
    }
}

/// The sandbox filter enforces the sandbox policy: for every system call
/// number and architecture, the installed program answers with the
/// policy's verdict.
pub proof fn lemma_sandbox_filter_policy(nr: u32, arch: u32)
    ensures
        bpf_run(denylist_program(denied_syscalls(), 1), 0, 0, nr, arch)
            == Some(sandbox_verdict(nr, arch)),
{
    let d = denied_syscalls();
    lemma_denylist_program_verdict(d, 1, nr, arch);
    assert((SECCOMP_RET_ERRNO_BASE | 1u32) == 0x0005_0001u32) by (bit_vector);
    assert(is_denied(d, nr) <==> d.contains(nr as i64)) by {
        if is_denied(d, nr) {
            let j = choose|j: int| 0 <= j < d.len() && (d[j] as u32) == nr;
            assert(0 <= d[j] < 1000);
            assert(d[j] == nr as i64);
        }
        if d.contains(nr as i64) {
            let j = choose|j: int| 0 <= j < d.len() && d[j] == nr as i64;
            assert(0 <= d[j] < 1000);
            assert((d[j] as u32) == nr);
        }
    }
}

/// The sandbox filter on x86-64, call by call: ptrace (101), kexec_load
/// (246), init_module (175), finit_module (313), delete_module (176),
/// setuid (105), setgid (106), setreuid (113), setregid (114), setresuid
/// (117), setresgid (119), mount (165), umount2 (166), pivot_root (155),
/// chroot (161), process_vm_readv (310), process_vm_writev (311) and
/// perf_event_open (298) fail with `EPERM` (`0x0005_0001`); every other
/// system call is allowed (`0x7fff_0000`), and so is every call of another
/// architecture.
pub proof fn lemma_sandbox_filter_denies_dangerous_calls(nr: u32, arch: u32)
    ensures
        arch == 0xC000_003Eu32 && (nr == 101 || nr == 246 || nr == 175 || nr == 313 || nr == 176
            || nr == 105 || nr == 106 || nr == 113 || nr == 114 || nr == 117 || nr == 119
            || nr == 165 || nr == 166 || nr == 155 || nr == 161 || nr == 310 || nr == 311
            || nr == 298) ==> bpf_run(denylist_program(denied_syscalls(), 1), 0, 0, nr, arch) == Some(0x0005_0001u32),
        arch == 0xC000_003Eu32 && !(nr == 101 || nr == 246 || nr == 175 || nr == 313 || nr == 176
            || nr == 105 || nr == 106 || nr == 113 || nr == 114 || nr == 117 || nr == 119
            || nr == 165 || nr == 166 || nr == 155 || nr == 161 || nr == 310 || nr == 311
            || nr == 298) ==> bpf_run(denylist_program(denied_syscalls(), 1), 0, 0, nr, arch) == Some(0x7fff_0000u32),
        arch != 0xC000_003Eu32 ==> bpf_run(denylist_program(denied_syscalls(), 1), 0, 0, nr, arch) == Some(0x7fff_0000u32),
{
    lemma_sandbox_filter_policy(nr, arch);
    let d = denied_syscalls();
    let listed = nr == 101 || nr == 246 || nr == 175 || nr == 313 || nr == 176
        || nr == 105 || nr == 106 || nr == 113 || nr == 114 || nr == 117 || nr == 119
        || nr == 165 || nr == 166 || nr == 155 || nr == 161 || nr == 310 || nr == 311
        || nr == 298;
    assert(d.len() == 18);
    assert(d[0] == 101 && d[1] == 246 && d[2] == 175 && d[3] == 313 && d[4] == 176 && d[5] == 105
        && d[6] == 106 && d[7] == 113 && d[8] == 114 && d[9] == 117 && d[10] == 119 && d[11] == 165
        && d[12] == 166 && d[13] == 155 && d[14] == 161 && d[15] == 310 && d[16] == 311 && d[17] == 298);
    if listed {
        let j: int = if nr == 101 { 0 } else if nr == 246 { 1 } else if nr == 175 { 2 } else if nr == 313 { 3 }
            else if nr == 176 { 4 } else if nr == 105 { 5 } else if nr == 106 { 6 } else if nr == 113 { 7 }
            else if nr == 114 { 8 } else if nr == 117 { 9 } else if nr == 119 { 10 } else if nr == 165 { 11 }
            else if nr == 166 { 12 } else if nr == 155 { 13 } else if nr == 161 { 14 } else if nr == 310 { 15 }
            else if nr == 311 { 16 } else { 17 };
        assert(d[j] == nr as i64);
        assert(d.contains(nr as i64));
    } else {
        assert forall|j: int| 0 <= j < d.len() implies d[j] != nr as i64 by {
            assert(0 <= j < 18);
        }
        assert(!d.contains(nr as i64));
    }
    assert(SECCOMP_RET_ALLOW == 0x7fff_0000u32);
    assert(AUDIT_ARCH_X86_64 == 0xC000_003Eu32);
}

/// Builds the seccomp BPF program of the sandbox: the denylist program
/// for the denied system calls, answering them with `EPERM`. On x86-64 the
/// eighteen dangerous calls of `lemma_sandbox_filter_denies_dangerous_calls`
/// get `EPERM` and every other call is allowed.
pub fn build_seccomp_filter() -> (prog: Vec<SockFilter>)
    ensures
        prog@ == denylist_program(denied_syscalls(), 1),
        forall|nr: u32, arch: u32|
            #[trigger] bpf_run(prog@, 0, 0, nr, arch) == Some(sandbox_verdict(nr, arch)),
        bpf_run(prog@, 0, 0, 105, 0xC000_003Eu32) == Some(0x0005_0001u32),
        bpf_run(prog@, 0, 0, 101, 0xC000_003Eu32) == Some(0x0005_0001u32),
        bpf_run(prog@, 0, 0, 165, 0xC000_003Eu32) == Some(0x0005_0001u32),
        bpf_run(prog@, 0, 0, 0, 0xC000_003Eu32) == Some(0x7fff_0000u32),
{
    let denied = denied_syscall_numbers();
    let prog = build_denylist_filter(denied.as_slice(), errno_eperm());
    proof {
        assert forall|nr: u32, arch: u32|
            #[trigger] bpf_run(prog@, 0, 0, nr, arch) == Some(sandbox_verdict(nr, arch)) by {
            lemma_sandbox_filter_policy(nr, arch);
        }
        lemma_sandbox_filter_denies_dangerous_calls(105, 0xC000_003Eu32);
        lemma_sandbox_filter_denies_dangerous_calls(101, 0xC000_003Eu32);
        lemma_sandbox_filter_denies_dangerous_calls(165, 0xC000_003Eu32);
        lemma_sandbox_filter_denies_dangerous_calls(0, 0xC000_003Eu32);
    }
    prog
}

} // verus!
