//! The per-connection session: sensor matrix extents, orientation flags and
//! the object table. Higher-level operations plan their register I/O from
//! here: an object read or write first looks its id up in the table, and a
//! register write is bounds-checked against the object's declared size
//! before any address is produced.

use crate::error::MtError;
use crate::objects::T100MultipleTouchTouchscreen;
use crate::table::{InformationBlock, ObjectDetails, ObjectTable};
use vstd::prelude::*;

verus! {

/// Vendor id of the transport endpoint the driver targets.
pub const VENDOR_ID: u16 = 0xFEED;

/// Product id of the transport endpoint the driver targets.
pub const PRODUCT_ID: u16 = 0x0000;

/// Usage page of the transport endpoint the driver targets.
pub const USAGE_PAGE: u16 = 0xFF60;

/// Usage of the transport endpoint the driver targets.
pub const USAGE: u16 = 0x61;

/// Whether an enumerated transport endpoint is the device class this driver
/// speaks to: all four signature values must match the fixed constants.
pub fn device_matches(vendor: u16, product: u16, usage: u16, usage_page: u16) -> (r: bool)
    ensures
        r == (vendor == VENDOR_ID && product == PRODUCT_ID && usage == USAGE && usage_page
            == USAGE_PAGE),
{
    vendor == VENDOR_ID && product == PRODUCT_ID && usage == USAGE && usage_page == USAGE_PAGE
}

/// One connected controller's state, as the driver tracks it.
pub struct Session {
    /// Sensor matrix extent along x, from the information block.
    pub sensor_x: u8,
    /// Sensor matrix extent along y, from the information block.
    pub sensor_y: u8,
    /// Mirror the x axis when building a heatmap.
    pub invert_x: bool,
    /// Mirror the y axis when building a heatmap.
    pub invert_y: bool,
    /// Swap the axes when building a heatmap.
    pub swap_xy: bool,
    /// The object table built at connect time.
    pub table: ObjectTable,
}

impl Session {
    /// The object table as a mathematical map.
    pub open spec fn spec_table(&self) -> Map<u8, ObjectDetails> {
        self.table.view()
    }

    /// Every table entry's span lies inside the register space.
    pub open spec fn table_wf(&self) -> bool {
        self.table.wf()
    }

    /// A session fresh from bootstrap: extents from the information block,
    /// orientation flags cleared until the touchscreen object is decoded.
    pub fn new(info: &InformationBlock, table: ObjectTable) -> (s: Session)
        requires
            table.wf(),
        ensures
            s.table_wf(),
            s.sensor_x == info.matrix_x_size,
            s.sensor_y == info.matrix_y_size,
            !s.invert_x && !s.invert_y && !s.swap_xy,
            s.spec_table() == table.view(),
    {
        Session {
            sensor_x: info.matrix_x_size,
            sensor_y: info.matrix_y_size,
            invert_x: false,
            invert_y: false,
            swap_xy: false,
            table,
        }
    }

    /// Look an object up by its type id; `None` exactly when the id is
    /// absent from the table.
    pub fn object_details(&self, id: u8) -> (r: Option<&ObjectDetails>)
        ensures
            match r {
                Some(d) => self.spec_table().contains_key(id) && *d == self.spec_table()[id],
                None => !self.spec_table().contains_key(id),
            },
    {
        self.table.get(id)
    }

    /// The register span a full read or write of an object covers: its base
    /// address and declared size. An id absent from the table is an
    /// `ObjectNotFound` failure, distinct from any I/O failure.
    pub fn object_span(&self, id: u8) -> (r: Result<(u16, u8), MtError>)
        requires
            self.table_wf(),
        ensures
            r is Ok <==> self.spec_table().contains_key(id),
            r is Ok ==> {
                &&& r->Ok_0.0 == self.spec_table()[id].address
                &&& r->Ok_0.1 == self.spec_table()[id].size
                &&& r->Ok_0.0 + r->Ok_0.1 <= 0x10000
                &&& r->Ok_0.1 >= 1
            },
            r is Err ==> r->Err_0 == MtError::ObjectNotFound(id),
    {
        match self.table.get(id) {
            Some(details) => Ok((details.address, details.size)),
            None => Err(MtError::ObjectNotFound(id)),
        }
    }

    /// The register address a partial write of `len` bytes at `offset` into
    /// an object goes to. Rejected with `ObjectNotFound` when the id is
    /// absent, and with `OutOfBounds` exactly when `offset + len` reaches or
    /// passes the object's declared size; accepted, with the in-range target
    /// address, exactly when `offset + len` stays below it.
    pub fn write_register_target(&self, id: u8, offset: u8, len: usize) -> (r: Result<
        u16,
        MtError,
    >)
        requires
            self.table_wf(),
        ensures
            !self.spec_table().contains_key(id) ==> r is Err && r->Err_0
                == MtError::ObjectNotFound(id),
            self.spec_table().contains_key(id) && offset + len >= self.spec_table()[id].size
                ==> r is Err && r->Err_0 == MtError::OutOfBounds(id),
            self.spec_table().contains_key(id) && offset + len < self.spec_table()[id].size
                ==> r is Ok && r->Ok_0 == self.spec_table()[id].address + offset && r->Ok_0
                + len < 0x10000,
    {
        match self.table.get(id) {
            Some(details) => {
                if len >= details.size as usize || (offset as usize) + len
                    >= details.size as usize {
                    Err(MtError::OutOfBounds(id))
                } else {
                    Ok(details.address + offset as u16)
                }
            },
            None => Err(MtError::ObjectNotFound(id)),
        }
    }

    /// Project the orientation flags out of a decoded touchscreen object:
    /// bit 7 of `cfg1` mirrors x, bit 6 mirrors y, bit 5 swaps the axes.
    /// This is the explicit post-decode step that makes decoding itself free
    /// of side effects.
    pub fn apply_orientation(&mut self, t: &T100MultipleTouchTouchscreen)
        ensures
            final(self).invert_x == ((t.cfg1 & 0x80) != 0),
            final(self).invert_y == ((t.cfg1 & 0x40) != 0),
            final(self).swap_xy == ((t.cfg1 & 0x20) != 0),
            final(self).sensor_x == old(self).sensor_x,
            final(self).sensor_y == old(self).sensor_y,
            final(self).spec_table() == old(self).spec_table(),
            final(self).table_wf() == old(self).table_wf(),
    {
        self.invert_x = (t.cfg1 & 0x80) != 0;
        self.invert_y = (t.cfg1 & 0x40) != 0;
        self.swap_xy = (t.cfg1 & 0x20) != 0;
    }
}

} // verus!
