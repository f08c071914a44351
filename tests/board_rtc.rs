use std::cell::RefCell;
use std::rc::Rc;

use stm32wl_hal_subghz::rtc::{
    date_from_register, date_register, hz, prescalers, ss_to_us, time_from_registers,
    time_register, CalendarDate, CalendarTime, Clk,
};
use stm32wl_hal_subghz::{Level, OutputPin, RfSwitch, D5};

#[derive(Clone)]
struct Pin {
    name: &'static str,
    trace: Rc<RefCell<Vec<(&'static str, Level)>>>,
}

impl OutputPin for Pin {
    fn set_level(&mut self, level: Level) {
        self.trace.borrow_mut().push((self.name, level));
    }
}

fn pin(name: &'static str, trace: &Rc<RefCell<Vec<(&'static str, Level)>>>) -> Pin {
    Pin { name, trace: trace.clone() }
}

#[test]
fn d5_is_active_low() {
    let trace = Rc::new(RefCell::new(Vec::new()));
    let mut d5 = D5::new(pin("b5", &trace));
    d5.set_on();
    d5.toggle();
    d5.toggle();
    d5.set_off();
    let b5 = d5.free();
    assert_eq!(b5.name, "b5");
    assert_eq!(
        *trace.borrow(),
        vec![("b5", Level::High), ("b5", Level::Low), ("b5", Level::High), ("b5", Level::Low), ("b5", Level::High)]
    );
}

#[test]
fn rf_switch_levels() {
    let trace = Rc::new(RefCell::new(Vec::new()));
    let mut rfs = RfSwitch::new(pin("c3", &trace), pin("c4", &trace), pin("c5", &trace));
    trace.borrow_mut().clear();
    rfs.set_rx();
    assert_eq!(*trace.borrow(), vec![("c4", Level::High), ("c5", Level::Low), ("c3", Level::High)]);
    trace.borrow_mut().clear();
    rfs.set_tx_lp();
    assert_eq!(*trace.borrow(), vec![("c4", Level::High), ("c5", Level::High), ("c3", Level::High)]);
    trace.borrow_mut().clear();
    rfs.set_tx_hp();
    assert_eq!(*trace.borrow(), vec![("c5", Level::High), ("c4", Level::Low), ("c3", Level::High)]);
}

#[test]
fn rtc_source_clock_frequencies() {
    assert_eq!(hz(0, false), 0);
    assert_eq!(hz(Clk::Lse.rtcsel(), false), 32_768);
    assert_eq!(hz(Clk::Lsi.rtcsel(), false), 32_000);
    assert_eq!(hz(Clk::Lsi.rtcsel(), true), 250);
    assert_eq!(hz(Clk::Hse.rtcsel(), false), 1_000_000);
}

#[test]
fn rtc_prescalers_divide_to_one_hertz() {
    assert_eq!(prescalers(Clk::Lse, false), (127, 255));
    assert_eq!(prescalers(Clk::Lsi, false), (99, 319));
    assert_eq!(prescalers(Clk::Lsi, true), (124, 1));
    assert_eq!(prescalers(Clk::Hse, true), (99, 9_999));
}

#[test]
fn rtc_registers_are_bcd() {
    assert_eq!(time_register(13, 45, 7), 0x0013_4507);
    assert_eq!(time_register(0, 0, 0), 0);
    assert_eq!(date_register(2021, 6, 15, 2), 0x0021_4615);
    assert_eq!(date_register(2099, 12, 31, 7), 0x0099_F231);
}

#[test]
fn rtc_date_decode_checks_the_calendar() {
    assert_eq!(date_from_register(0x0021_4615), Some(CalendarDate { year: 2021, month: 6, day: 15 }));
    assert_eq!(date_from_register(0x0024_0229), Some(CalendarDate { year: 2024, month: 2, day: 29 }));
    assert_eq!(date_from_register(0x0023_0229), None);
    assert_eq!(date_from_register(0x0021_0230), None);
    assert_eq!(date_from_register(0x0021_0000), None);
}

#[test]
fn rtc_time_decode() {
    assert_eq!(ss_to_us(0, 255), 996_090);
    assert_eq!(ss_to_us(255, 255), 0);
    assert_eq!(ss_to_us(0x0001_00FF, 255), 0);
    assert_eq!(
        time_from_registers(0x0013_4507, 255, 255),
        Some(CalendarTime { hour: 13, minute: 45, second: 7, micro: 0 })
    );
    assert_eq!(
        time_from_registers(0x0041_0000, 127, 255),
        Some(CalendarTime { hour: 13, minute: 0, second: 0, micro: 500_000 })
    );
    assert_eq!(time_from_registers(0x0025_0000, 0, 255), None);
    assert_eq!(time_from_registers(0x0000_6000, 0, 255), None);
}
