//! Device-touched flags: every memory-mapped register write marks its device
//! so that the scheduler's device-check pass applies the change exactly once
//! per batch, plus the speaker toggle counter.

use vstd::prelude::*;

verus! {

#[derive(Clone, Copy, Debug)]
pub struct DeviceFlags {
    /// Count of device-check passes until the display is redrawn; zero means
    /// no redraw pending.
    pub display_touched: i32,
    pub contrast_touched: bool,
    pub disp_test_touched: bool,
    pub power_status_touched: bool,
    pub power_ctrl_touched: bool,
    pub mode_touched: bool,
    pub ann_touched: bool,
    pub baud_touched: bool,
    pub card_ctrl_touched: bool,
    pub ioc_touched: bool,
    pub rbr_touched: bool,
    pub tbr_touched: bool,
    pub sreq_touched: bool,
    pub ir_ctrl_touched: bool,
    pub base_off_touched: bool,
    pub lcr_touched: bool,
    pub lbr_touched: bool,
    pub scratch_touched: bool,
    pub base_nibble_touched: bool,
    pub unknown_touched: bool,
    pub unknown2_touched: bool,
    pub t1_ctrl_touched: bool,
    pub t2_ctrl_touched: bool,
    pub t1_touched: bool,
    pub t2_touched: bool,
    /// Total speaker toggles observed so far.
    pub speaker_counter: i32,
}

impl Default for DeviceFlags {
    fn default() -> (r: Self)
        ensures
            r == DeviceFlags::spec_default(),
    {
        DeviceFlags {
            display_touched: 0,
            contrast_touched: false,
            disp_test_touched: false,
            power_status_touched: false,
            power_ctrl_touched: false,
            mode_touched: false,
            ann_touched: false,
            baud_touched: false,
            card_ctrl_touched: false,
            ioc_touched: false,
            rbr_touched: false,
            tbr_touched: false,
            sreq_touched: false,
            ir_ctrl_touched: false,
            base_off_touched: false,
            lcr_touched: false,
            lbr_touched: false,
            scratch_touched: false,
            base_nibble_touched: false,
            unknown_touched: false,
            unknown2_touched: false,
            t1_ctrl_touched: false,
            t2_ctrl_touched: false,
            t1_touched: false,
            t2_touched: false,
            speaker_counter: 0,
        }
    }
}

impl DeviceFlags {
    /// The all-clear flag record.
    pub open spec fn spec_default() -> DeviceFlags {
        DeviceFlags {
            display_touched: 0,
            contrast_touched: false,
            disp_test_touched: false,
            power_status_touched: false,
            power_ctrl_touched: false,
            mode_touched: false,
            ann_touched: false,
            baud_touched: false,
            card_ctrl_touched: false,
            ioc_touched: false,
            rbr_touched: false,
            tbr_touched: false,
            sreq_touched: false,
            ir_ctrl_touched: false,
            base_off_touched: false,
            lcr_touched: false,
            lbr_touched: false,
            scratch_touched: false,
            base_nibble_touched: false,
            unknown_touched: false,
            unknown2_touched: false,
            t1_ctrl_touched: false,
            t2_ctrl_touched: false,
            t1_touched: false,
            t2_touched: false,
            speaker_counter: 0,
        }
    }
}

} // verus!
