use x86_msr::{Msr, PrivilegeLevel, SegmentSelector, Star, StarError, Unchecked};

fn quad(a: u16, b: u16, c: u16, d: u16) -> (SegmentSelector, SegmentSelector, SegmentSelector, SegmentSelector) {
    (SegmentSelector(a), SegmentSelector(b), SegmentSelector(c), SegmentSelector(d))
}

fn write4(reg: &mut u64, a: u16, b: u16, c: u16, d: u16) -> Result<(), StarError> {
    Star::write(reg, SegmentSelector(a), SegmentSelector(b), SegmentSelector(c), SegmentSelector(d))
}

#[test]
fn star_address() {
    assert_eq!(Star::ADDRESS, 0xC000_0081);
    assert_eq!(Star::msr().address(), 0xC000_0081);
    assert_eq!(Msr::new(Star::ADDRESS).address(), Star::msr().address());
}

#[test]
fn star_write_raw_packs_both_bases() {
    let mut reg: u64 = 0;
    Star::write_raw(&mut reg, 27, 8, Unchecked);
    assert_eq!(reg, 0x001B_0008_0000_0000);
    Star::write_raw(&mut reg, 0xABCD, 0x1234, Unchecked);
    assert_eq!(reg, 0xABCD_1234_0000_0000);
}

#[test]
fn star_write_raw_clears_low_half() {
    let mut reg: u64 = u64::MAX;
    Star::write_raw(&mut reg, 0, 0, Unchecked);
    assert_eq!(reg, 0);
    let mut reg: u64 = 0x1111_2222_3333_4444;
    Star::write_raw(&mut reg, 0xFFFF, 0xFFFF, Unchecked);
    assert_eq!(reg, 0xFFFF_FFFF_0000_0000);
}

#[test]
fn star_read_raw_takes_bits_32_to_63() {
    assert_eq!(Star::read_raw(0x001B_0008_0000_0000), (27, 8));
    assert_eq!(Star::read_raw(0xABCD_1234_5678_9ABC), (0xABCD, 0x1234));
    assert_eq!(Star::read_raw(0x0000_0000_FFFF_FFFF), (0, 0));
    assert_eq!(Star::read_raw(u64::MAX), (0xFFFF, 0xFFFF));
    assert_eq!(Star::read_raw(0x0001_0000_0000_0000), (1, 0));
    assert_eq!(Star::read_raw(0x0000_0001_0000_0000), (0, 1));
    assert_eq!(Star::read_raw(0x0000_8000_0000_0000), (0, 0x8000));
}

#[test]
fn star_raw_round_trip_at_the_edges() {
    let edges: [u16; 8] = [0, 1, 7, 8, 0x00FF, 0x0100, 0x7FFF, 0xFFFF];
    for &a in edges.iter() {
        for &b in edges.iter() {
            let mut reg: u64 = 0x0123_4567_89AB_CDEF;
            Star::write_raw(&mut reg, a, b, Unchecked);
            assert_eq!(Star::read_raw(reg), (a, b));
        }
    }
}

#[test]
fn star_raw_round_trip_sweep() {
    let mut a: u32 = 0;
    while a <= 0xFFFF {
        let mut b: u32 = 0;
        while b <= 0xFFFF {
            let mut reg: u64 = u64::MAX;
            Star::write_raw(&mut reg, a as u16, b as u16, Unchecked);
            assert_eq!(Star::read_raw(reg), (a as u16, b as u16));
            assert_eq!(reg & 0xFFFF_FFFF, 0);
            b += 251;
        }
        a += 509;
    }
}

#[test]
fn star_read_derives_the_four_selectors() {
    let s = Star::read(0x001B_0008_0000_0000);
    assert_eq!(s, quad(43, 35, 8, 16));
    let s = Star::read(0);
    assert_eq!(s, quad(16, 8, 0, 8));
    let s = Star::read(0x0010_0020_FFFF_FFFF);
    assert_eq!(s, quad(32, 24, 32, 40));
}

#[test]
fn star_read_at_the_sixteen_bit_limit() {
    let mut reg: u64 = 0;
    Star::write_raw(&mut reg, 0xFFEF, 0xFFF7, Unchecked);
    let s = Star::read(reg);
    assert_eq!(s, quad(0xFFFF, 0xFFF7, 0xFFF7, 0xFFFF));
}

#[test]
fn star_write_accepts_the_kernel_layout() {
    let mut reg: u64 = 0xDEAD_BEEF_DEAD_BEEF;
    assert_eq!(write4(&mut reg, 43, 35, 8, 16), Ok(()));
    assert_eq!(reg, 0x001B_0008_0000_0000);
    assert_eq!(Star::read_raw(reg), (27, 8));
    assert_eq!(Star::read(reg), quad(43, 35, 8, 16));
    assert_eq!(SegmentSelector(35).rpl(), PrivilegeLevel::Ring3);
    assert_eq!(SegmentSelector(16).rpl(), PrivilegeLevel::Ring0);
}

#[test]
fn star_write_then_read_gives_the_selectors_back() {
    let mut sysret_base: u32 = 3;
    while sysret_base + 16 <= 0xFFFF {
        let mut syscall_base: u32 = 0;
        while syscall_base + 8 <= 0xFFFF {
            let q = quad(
                (sysret_base + 16) as u16,
                (sysret_base + 8) as u16,
                syscall_base as u16,
                (syscall_base + 8) as u16,
            );
            let mut reg: u64 = 0x5555_5555_5555_5555;
            assert_eq!(Star::write(&mut reg, q.0, q.1, q.2, q.3), Ok(()));
            assert_eq!(Star::read_raw(reg), (sysret_base as u16, syscall_base as u16));
            assert_eq!(Star::read(reg), q);
            syscall_base += 4 * 173;
        }
        sysret_base += 4 * 211;
    }
}

#[test]
fn star_write_accepts_the_largest_selectors() {
    let mut reg: u64 = 0;
    assert_eq!(write4(&mut reg, 0xFFFF, 0xFFF7, 0xFFF4, 0xFFFC), Ok(()));
    assert_eq!(reg, 0xFFEF_FFF4_0000_0000);
    assert_eq!(Star::read(reg), quad(0xFFFF, 0xFFF7, 0xFFF4, 0xFFFC));
}

#[test]
fn star_write_accepts_the_smallest_selectors() {
    let mut reg: u64 = u64::MAX;
    assert_eq!(write4(&mut reg, 19, 11, 0, 8), Ok(()));
    assert_eq!(reg, 0x0003_0000_0000_0000);
    assert_eq!(Star::read(reg), quad(19, 11, 0, 8));
}

#[test]
fn star_write_reports_sysret_offset() {
    let mut reg: u64 = 0x1234;
    assert_eq!(write4(&mut reg, 44, 35, 8, 16), Err(StarError::SysretOffset));
    assert_eq!(reg, 0x1234);
    assert_eq!(write4(&mut reg, 35, 43, 8, 16), Err(StarError::SysretOffset));
    assert_eq!(write4(&mut reg, 35, 35, 8, 16), Err(StarError::SysretOffset));
    assert_eq!(reg, 0x1234);
}

#[test]
fn star_write_reports_syscall_offset() {
    let mut reg: u64 = 0x1234;
    assert_eq!(write4(&mut reg, 43, 35, 8, 24), Err(StarError::SyscallOffset));
    assert_eq!(write4(&mut reg, 43, 35, 16, 8), Err(StarError::SyscallOffset));
    assert_eq!(write4(&mut reg, 43, 35, 8, 8), Err(StarError::SyscallOffset));
    assert_eq!(reg, 0x1234);
}

#[test]
fn star_write_reports_sysret_ring() {
    let mut reg: u64 = 0x1234;
    assert_eq!(write4(&mut reg, 40, 32, 8, 16), Err(StarError::SysretNotRing3));
    assert_eq!(write4(&mut reg, 41, 33, 8, 16), Err(StarError::SysretNotRing3));
    assert_eq!(write4(&mut reg, 42, 34, 8, 16), Err(StarError::SysretNotRing3));
    assert_eq!(reg, 0x1234);
}

#[test]
fn star_write_reports_syscall_ring() {
    let mut reg: u64 = 0x1234;
    assert_eq!(write4(&mut reg, 43, 35, 9, 17), Err(StarError::SyscallNotRing0));
    assert_eq!(write4(&mut reg, 43, 35, 10, 18), Err(StarError::SyscallNotRing0));
    assert_eq!(write4(&mut reg, 43, 35, 11, 19), Err(StarError::SyscallNotRing0));
    assert_eq!(reg, 0x1234);
}

#[test]
fn star_write_reports_the_first_failing_check() {
    let mut reg: u64 = 0x1234;
    // The offset of the sysret pair is wrong, and neither ring is right.
    assert_eq!(write4(&mut reg, 40, 33, 8, 16), Err(StarError::SysretOffset));
    // All four conditions are broken.
    assert_eq!(write4(&mut reg, 40, 33, 9, 18), Err(StarError::SysretOffset));
    // The last three are broken.
    assert_eq!(write4(&mut reg, 40, 32, 9, 18), Err(StarError::SyscallOffset));
    // The last two are broken.
    assert_eq!(write4(&mut reg, 40, 32, 9, 17), Err(StarError::SysretNotRing3));
    // Only the last one is broken.
    assert_eq!(write4(&mut reg, 43, 35, 9, 17), Err(StarError::SyscallNotRing0));
    assert_eq!(reg, 0x1234);
}

#[test]
fn star_write_refuses_selectors_below_every_base() {
    let mut reg: u64 = 0x1234;
    // No 16-bit base lies 8 below a stack selector of 3 or 7.
    assert_eq!(write4(&mut reg, 11, 3, 8, 16), Err(StarError::SysretOffset));
    assert_eq!(write4(&mut reg, 15, 7, 8, 16), Err(StarError::SysretOffset));
    assert_eq!(write4(&mut reg, 0, 0, 8, 16), Err(StarError::SysretOffset));
    assert_eq!(write4(&mut reg, 0xFFFB, 3, 8, 16), Err(StarError::SysretOffset));
    // No code selector lies 8 below a stack selector of 0 or 4.
    assert_eq!(write4(&mut reg, 43, 35, 0xFFF8, 0), Err(StarError::SyscallOffset));
    assert_eq!(write4(&mut reg, 43, 35, 0xFFFC, 4), Err(StarError::SyscallOffset));
    assert_eq!(write4(&mut reg, 43, 35, 0, 0), Err(StarError::SyscallOffset));
    assert_eq!(reg, 0x1234);
}

#[test]
fn star_error_messages() {
    assert_eq!(StarError::SysretOffset.message(), "Sysret CS and SS is not offset by 8.");
    assert_eq!(StarError::SyscallOffset.message(), "Syscall CS and SS is not offset by 8.");
    assert_eq!(StarError::SysretNotRing3.message(), "Sysret's segment must be a Ring3 segment.");
    assert_eq!(StarError::SyscallNotRing0.message(), "Syscall's segment must be a Ring0 segment.");
}

#[test]
fn selector_privilege_levels() {
    assert_eq!(SegmentSelector(0).rpl(), PrivilegeLevel::Ring0);
    assert_eq!(SegmentSelector(1).rpl(), PrivilegeLevel::Ring1);
    assert_eq!(SegmentSelector(2).rpl(), PrivilegeLevel::Ring2);
    assert_eq!(SegmentSelector(3).rpl(), PrivilegeLevel::Ring3);
    assert_eq!(SegmentSelector(0xFFFC).rpl(), PrivilegeLevel::Ring0);
    assert_eq!(SegmentSelector(0xFFFF).rpl(), PrivilegeLevel::Ring3);
    assert_eq!(SegmentSelector(0x002B).rpl(), PrivilegeLevel::Ring3);
    assert_eq!(PrivilegeLevel::from_u16(0), PrivilegeLevel::Ring0);
    assert_eq!(PrivilegeLevel::from_u16(1), PrivilegeLevel::Ring1);
    assert_eq!(PrivilegeLevel::from_u16(2), PrivilegeLevel::Ring2);
    assert_eq!(PrivilegeLevel::from_u16(3), PrivilegeLevel::Ring3);
}
