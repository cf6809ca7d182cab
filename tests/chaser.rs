use reactive_firmware::action::{Action, Source};
use reactive_firmware::chaser::{tim2, Chaser, FillDrain};
use reactive_firmware::context::{Interrupts, Shared};

fn run(chaser: &mut Chaser, toggles: &mut Vec<u32>, levels: &mut Vec<bool>) -> Vec<Action> {
    let r = chaser.on_update(true).as_slice().to_vec();
    for a in &r {
        if let Action::ToggleLed(i) = a {
            toggles[*i] += 1;
            levels[*i] = !levels[*i];
        }
    }
    r
}

#[test]
fn chaser_seventeen_updates_on_eight_leds() {
    let mut c = Chaser::new(8);
    let mut toggles = vec![0u32; 8];
    let mut levels = vec![true; 8];
    for _ in 0..17 {
        run(&mut c, &mut toggles, &mut levels);
    }
    assert_eq!(c.index(), 1);
    assert_eq!(toggles, vec![3, 2, 2, 2, 2, 2, 2, 2]);
}

#[test]
fn chaser_update_toggles_then_acknowledges() {
    let mut c = Chaser::new(8);
    let r = c.on_update(true);
    assert_eq!(r.as_slice(), vec![Action::ToggleLed(0), Action::Acknowledge(Source::TimerUpdate)]);
    assert_eq!(c.index(), 1);
}

#[test]
fn chaser_cursor_wraps_and_last_toggled_follows() {
    for len in 1..=8usize {
        let mut c = Chaser::new(len);
        for n in 1..=30usize {
            let r = c.on_update(true);
            assert_eq!(r.as_slice()[0], Action::ToggleLed((n - 1) % len));
            assert_eq!(c.index(), n % len);
        }
    }
}

#[test]
fn chaser_cold_start_lights_led_zero_then_restores_it() {
    let mut c = Chaser::new(8);
    let mut toggles = vec![0u32; 8];
    let mut levels = vec![true; 8];
    run(&mut c, &mut toggles, &mut levels);
    assert!(!levels[0]);
    for _ in 1..9 {
        run(&mut c, &mut toggles, &mut levels);
    }
    assert!(levels[0]);
    assert_eq!(toggles[0], 2);
}

#[test]
fn chaser_without_update_flag_changes_nothing() {
    let mut c = Chaser::new(8);
    c.on_update(true);
    let r = c.on_update(false);
    assert!(r.is_empty());
    assert_eq!(c.index(), 1);
}

#[test]
fn tim2_before_publication_does_nothing() {
    let mut irq = Interrupts::new();
    let mut shared: Shared<Chaser> = Shared::new();
    let r = tim2(&mut irq, &mut shared, true);
    assert!(r.is_empty());
    assert!(!shared.is_live());
    assert!(!irq.masked());
}

#[test]
fn tim2_after_publication_restores_interrupt_mask() {
    let mut irq = Interrupts::new();
    let mut shared: Shared<Chaser> = Shared::new();
    let cs = irq.acquire();
    assert!(shared.publish(&irq, Chaser::new(8)).is_ok());
    irq.release(cs);
    assert!(!irq.masked());
    let r = tim2(&mut irq, &mut shared, true);
    assert_eq!(r.as_slice(), vec![Action::ToggleLed(0), Action::Acknowledge(Source::TimerUpdate)]);
    assert!(!irq.masked());
    let r = tim2(&mut irq, &mut shared, false);
    assert!(r.is_empty());
    let r = tim2(&mut irq, &mut shared, true);
    assert_eq!(r.as_slice()[0], Action::ToggleLed(1));
}

#[test]
fn second_publication_is_refused() {
    let mut irq = Interrupts::new();
    let mut shared: Shared<Chaser> = Shared::new();
    let cs = irq.acquire();
    assert!(shared.publish(&irq, Chaser::new(8)).is_ok());
    let again = shared.publish(&irq, Chaser::new(3));
    irq.release(cs);
    assert_eq!(again.err().map(|c| c.len()), Some(3));
    let mut irq2 = Interrupts::new();
    tim2(&mut irq2, &mut shared, true);
    let cs = irq2.acquire();
    let live = shared.live_mut(&irq2).map(|c| (c.len(), c.index()));
    irq2.release(cs);
    assert_eq!(live, Some((8, 1)));
}

#[test]
fn nested_critical_section_keeps_outer_mask() {
    let mut irq = Interrupts::new();
    let outer = irq.acquire();
    let inner = irq.acquire();
    irq.release(inner);
    assert!(irq.masked());
    irq.release(outer);
    assert!(!irq.masked());
}

#[test]
fn fill_drain_lights_then_clears_in_order() {
    let mut f = FillDrain::new(8);
    let mut seen = Vec::new();
    for _ in 0..16 {
        seen.push(f.advance());
    }
    for i in 0..8 {
        assert_eq!(seen[i], Action::LedLow(i));
        assert_eq!(seen[8 + i], Action::LedHigh(i));
    }
    assert_eq!(f.stage(), 0);
    assert_eq!(f.advance(), Action::LedLow(0));
}

#[test]
fn chaser_toggle_counts_follow_rounds() {
    let len = 5usize;
    let mut c = Chaser::new(len);
    let mut toggles = vec![0u32; len];
    let mut levels = vec![true; len];
    for n in 1..=23usize {
        run(&mut c, &mut toggles, &mut levels);
        for i in 0..len {
            let expected = n / len + if i < n % len { 1 } else { 0 };
            assert_eq!(toggles[i] as usize, expected);
        }
    }
}
