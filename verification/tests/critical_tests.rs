use ch58x_hal::critical::{Cpu, CriticalSection};

#[test]
fn matched_pairs_restore_enabled_state() {
    let mut cpu = Cpu { interrupts_enabled: true };
    let outer = CriticalSection::acquire(&mut cpu);
    assert!(!cpu.interrupts_enabled);
    let inner = CriticalSection::acquire(&mut cpu);
    assert!(!cpu.interrupts_enabled);
    CriticalSection::release(&mut cpu, inner);
    // The inner release must not re-enable early.
    assert!(!cpu.interrupts_enabled);
    CriticalSection::release(&mut cpu, outer);
    assert!(cpu.interrupts_enabled);
}

#[test]
fn matched_pairs_restore_disabled_state() {
    let mut cpu = Cpu { interrupts_enabled: false };
    let outer = CriticalSection::acquire(&mut cpu);
    let inner = CriticalSection::acquire(&mut cpu);
    CriticalSection::release(&mut cpu, inner);
    CriticalSection::release(&mut cpu, outer);
    assert!(!cpu.interrupts_enabled);
}

#[test]
fn three_levels_of_nesting_restore() {
    let mut cpu = Cpu { interrupts_enabled: true };
    let a = CriticalSection::acquire(&mut cpu);
    let b = CriticalSection::acquire(&mut cpu);
    let c = CriticalSection::acquire(&mut cpu);
    CriticalSection::release(&mut cpu, c);
    assert!(!cpu.interrupts_enabled);
    CriticalSection::release(&mut cpu, b);
    assert!(!cpu.interrupts_enabled);
    CriticalSection::release(&mut cpu, a);
    assert!(cpu.interrupts_enabled);
}

#[test]
fn sibling_sections_each_restore() {
    let mut cpu = Cpu { interrupts_enabled: true };
    let first = CriticalSection::acquire(&mut cpu);
    CriticalSection::release(&mut cpu, first);
    assert!(cpu.interrupts_enabled);
    let second = CriticalSection::acquire(&mut cpu);
    CriticalSection::release(&mut cpu, second);
    assert!(cpu.interrupts_enabled);
}
