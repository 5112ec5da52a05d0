//! The split of a cell's flash window into its body and its header slot.

use vstd::prelude::*;

use crate::meta::{CellDefMeta, DeviceConfigMeta};

verus! {

/// Size in bytes of every cell's header slot.
pub const HEADER_SIZE: usize = 1024;

/// A flash window carved into the cell's body, `[start_flash, end_flash)`,
/// and its header slot, `[start_header, end_header)`, at the window's end.
#[derive(Clone, Copy, Debug, PartialEq, Eq, Structural)]
pub struct PartitionedFlashRegion {
    pub start_flash: usize,
    pub end_flash: usize,
    pub start_header: usize,
    pub end_header: usize,
}

impl PartitionedFlashRegion {
    /// The partition of window `[start, end)` with a header slot of
    /// `header_size` bytes.
    pub open spec fn spec_partition(start: int, end: int, header_size: int) -> PartitionedFlashRegion {
        PartitionedFlashRegion {
            start_flash: start as usize,
            end_flash: (end - header_size) as usize,
            start_header: (end - header_size) as usize,
            end_header: end as usize,
        }
    }

    /// Splits window `[window_start, window_end)`: the body runs from the
    /// window's start to `window_end - header_size`, the header slot from
    /// there to the window's end.
    pub fn partition(window_start: usize, window_end: usize, header_size: usize) -> (r: Self)
        requires
            window_start <= window_end,
            header_size < window_end - window_start,
        ensures
            r == Self::spec_partition(window_start as int, window_end as int, header_size as int),
            r.start_flash == window_start,
            r.end_flash == window_end - header_size,
            r.start_header == window_end - header_size,
            r.end_header == window_end,
            r.start_flash < r.end_flash,
            r.end_header - r.start_header == header_size,
    {
        let end_flash = window_end - header_size;
        PartitionedFlashRegion {
            start_flash: window_start,
            end_flash,
            start_header: end_flash,
            end_header: end_flash + header_size,
        }
    }

    /// The partition of `cell`'s absolute flash window with a header slot of
    /// [`HEADER_SIZE`] bytes.
    pub fn from(cell: &CellDefMeta, device_config_meta: &DeviceConfigMeta) -> (r: Self)
        requires
            cell.flash_start_spec(device_config_meta) <= cell.flash_end_spec(device_config_meta)
                <= usize::MAX,
            HEADER_SIZE < cell.flash_end_spec(device_config_meta) - cell.flash_start_spec(
                device_config_meta,
            ),
        ensures
            r == Self::spec_partition(
                cell.flash_start_spec(device_config_meta),
                cell.flash_end_spec(device_config_meta),
                HEADER_SIZE as int,
            ),
    {
        let start = cell.absolute_flash_start(device_config_meta);
        let end = cell.absolute_flash_end(device_config_meta);
        Self::partition(start, end, HEADER_SIZE)
    }
}

} // verus!
