//! Object-table bootstrap.
//!
//! At connect time the controller's information block is read from address 0,
//! and then one 6-byte table element per object. Each element decodes to the
//! object's base address, size and instance count, keyed by its 8-bit object
//! type id. The resulting table is what every higher-level operation uses to
//! find an object; an id absent from it means the object does not exist on
//! this controller.

use crate::error::MtError;
use std::collections::HashMap;
use vstd::prelude::*;

verus! {

broadcast use vstd::std_specs::hash::group_hash_axioms;

/// Size in bytes of the information block on the wire.
pub const INFO_BLOCK_SIZE: usize = 7;

/// Size in bytes of one object-table element on the wire.
pub const TABLE_ELEMENT_SIZE: usize = 6;

/// The controller's information block: identity, sensor matrix extents and
/// the number of object-table elements that follow it.
#[derive(Clone, Copy, PartialEq, Eq, Structural, Debug)]
pub struct InformationBlock {
    pub family_id: u8,
    pub variant_id: u8,
    pub version: u8,
    pub build: u8,
    pub matrix_x_size: u8,
    pub matrix_y_size: u8,
    pub num_objects: u8,
}

/// One raw object-table element as it lies on the wire.
#[derive(Clone, Copy, PartialEq, Eq, Structural, Debug)]
pub struct ObjectTableElement {
    pub object_type: u8,
    pub position_ls_byte: u8,
    pub position_ms_byte: u8,
    pub size_minus_one: u8,
    pub instances_minus_one: u8,
    pub report_ids_per_instance: u8,
}

/// The decoded metadata of one object: where it lives and how big it is.
#[derive(Clone, Copy, PartialEq, Eq, Structural, Debug)]
pub struct ObjectDetails {
    pub address: u16,
    pub size: u8,
    pub instances: u8,
}

/// The information block read from the first bytes of the register space.
pub open spec fn info_block_from(b: Seq<u8>) -> InformationBlock {
    InformationBlock {
        family_id: b[0],
        variant_id: b[1],
        version: b[2],
        build: b[3],
        matrix_x_size: b[4],
        matrix_y_size: b[5],
        num_objects: b[6],
    }
}

/// The object-table element read from six wire bytes.
pub open spec fn element_from(b: Seq<u8>) -> ObjectTableElement {
    ObjectTableElement {
        object_type: b[0],
        position_ls_byte: b[1],
        position_ms_byte: b[2],
        size_minus_one: b[3],
        instances_minus_one: b[4],
        report_ids_per_instance: b[5],
    }
}

/// The metadata an element decodes to: the address bytes recombined
/// little-endian, size and instance count stored minus one on the wire.
pub open spec fn details_of(e: ObjectTableElement) -> ObjectDetails {
    ObjectDetails {
        address: (((e.position_ms_byte as u16) << 8) | (e.position_ls_byte as u16)),
        size: (e.size_minus_one + 1) as u8,
        instances: (e.instances_minus_one + 1) as u8,
    }
}

/// An element the driver can take: the stored-minus-one fields do not wrap
/// and the object's span lies inside the 16-bit register space, so chunked
/// reads and writes of it stay in range.
pub open spec fn element_fits(e: ObjectTableElement) -> bool {
    &&& e.size_minus_one < 255
    &&& e.instances_minus_one < 255
    &&& details_of(e).address + details_of(e).size <= 0x10000
}

impl InformationBlock {
    /// Decode the information block from its seven wire bytes.
    pub fn from_bytes(b: &Vec<u8>) -> (r: InformationBlock)
        requires
            b@.len() >= INFO_BLOCK_SIZE,
        ensures
            r == info_block_from(b@),
    {
        InformationBlock {
            family_id: b[0],
            variant_id: b[1],
            version: b[2],
            build: b[3],
            matrix_x_size: b[4],
            matrix_y_size: b[5],
            num_objects: b[6],
        }
    }
}

impl ObjectTableElement {
    /// Decode one table element from its six wire bytes.
    pub fn from_bytes(b: &Vec<u8>) -> (r: ObjectTableElement)
        requires
            b@.len() >= TABLE_ELEMENT_SIZE,
        ensures
            r == element_from(b@),
    {
        ObjectTableElement {
            object_type: b[0],
            position_ls_byte: b[1],
            position_ms_byte: b[2],
            size_minus_one: b[3],
            instances_minus_one: b[4],
            report_ids_per_instance: b[5],
        }
    }

    /// Executable counterpart of [`element_fits`].
    pub fn fits(&self) -> (r: bool)
        ensures
            r == element_fits(*self),
    {
        if !(self.size_minus_one < 255 && self.instances_minus_one < 255) {
            return false;
        }
        let details = self.details();
        (details.address as usize) + (details.size as usize) <= 0x10000
    }

    /// Executable counterpart of [`details_of`].
    pub fn details(&self) -> (d: ObjectDetails)
        requires
            self.size_minus_one < 255,
            self.instances_minus_one < 255,
        ensures
            d == details_of(*self),
    {
        ObjectDetails {
            address: ((self.position_ms_byte as u16) << 8) | (self.position_ls_byte as u16),
            size: self.size_minus_one + 1,
            instances: self.instances_minus_one + 1,
        }
    }
}

/// The per-connection map from object type id to its metadata.
pub struct ObjectTable {
    map: HashMap<u8, ObjectDetails>,
}

impl ObjectTable {
    /// The table as a mathematical map.
    pub closed spec fn view(&self) -> Map<u8, ObjectDetails> {
        self.map@
    }

    /// Every entry's span lies inside the 16-bit register space and is at
    /// least one byte; reads and writes planned from the table stay in range.
    pub open spec fn wf(&self) -> bool {
        forall|id: u8|
            self.view().contains_key(id) ==> {
                &&& (#[trigger] self.view()[id]).address + self.view()[id].size <= 0x10000
                &&& self.view()[id].size >= 1
            }
    }

    /// An empty table.
    pub fn new() -> (t: ObjectTable)
        ensures
            t.wf(),
            t.view() == Map::<u8, ObjectDetails>::empty(),
    {
        ObjectTable { map: HashMap::new() }
    }

    /// Insert the metadata decoded from one table element.
    pub fn insert_element(&mut self, e: &ObjectTableElement)
        requires
            old(self).wf(),
            element_fits(*e),
        ensures
            final(self).wf(),
            final(self).view() == old(self).view().insert(e.object_type, details_of(*e)),
    {
        let details = e.details();
        self.map.insert(e.object_type, details);
        proof {
            assert forall|id: u8| self.view().contains_key(id) implies {
                &&& (#[trigger] self.view()[id]).address + self.view()[id].size <= 0x10000
                &&& self.view()[id].size >= 1
            } by {
                if id != e.object_type {
                    assert(old(self).view().contains_key(id));
                    assert(self.view()[id] == old(self).view()[id]);
                }
            }
        }
    }

    /// Look an object up by its type id; `None` exactly when the id is
    /// absent from the table.
    pub fn get(&self, id: u8) -> (r: Option<&ObjectDetails>)
        ensures
            match r {
                Some(d) => self.view().contains_key(id) && *d == self.view()[id],
                None => !self.view().contains_key(id),
            },
    {
        self.map.get(&id)
    }

    /// Number of objects in the table.
    pub fn len(&self) -> (n: usize)
        ensures
            n == self.view().dom().len(),
    {
        self.map.len()
    }
}

/// Object-table lookup is total over what bootstrap inserted: an id put
/// into the table by taking an element is retrievable, and what comes back
/// is exactly the address, size and instance count decoded from that
/// element's bytes (as long as no later element reuses the id).
pub proof fn lemma_bootstrap_lookup_total(m: Map<u8, ObjectDetails>, e: ObjectTableElement)
    ensures
        m.insert(e.object_type, details_of(e)).contains_key(e.object_type),
        m.insert(e.object_type, details_of(e))[e.object_type] == details_of(e),
        details_of(e).address == ((e.position_ms_byte as u16) << 8) | (
        e.position_ls_byte as u16),
        details_of(e).size == ((e.size_minus_one + 1) as u8),
        details_of(e).instances == ((e.instances_minus_one + 1) as u8),
{
}

/// The connect-time bootstrap in flight: holds the information block and
/// fills the object table one element at a time. The surrounding application
/// performs each element's chunked read; the bootstrap decides every read
/// address and owns all decoding, so a finished bootstrap's table provably
/// holds exactly what the elements said.
pub struct Bootstrap {
    info: InformationBlock,
    next_index: u8,
    table: ObjectTable,
}

impl Bootstrap {
    /// The information block this bootstrap started from.
    pub closed spec fn spec_info(&self) -> InformationBlock {
        self.info
    }

    /// Table elements taken so far.
    pub closed spec fn spec_next_index(&self) -> int {
        self.next_index as int
    }

    /// The table built so far, as a mathematical map.
    pub closed spec fn spec_table(&self) -> Map<u8, ObjectDetails> {
        self.table.view()
    }

    /// The bootstrap's bookkeeping is consistent.
    pub open spec fn wf(&self) -> bool {
        &&& self.spec_next_index() <= self.spec_info().num_objects
        &&& self.table_wf()
    }

    /// The table built so far is well formed.
    pub closed spec fn table_wf(&self) -> bool {
        self.table.wf()
    }

    /// Start a bootstrap from the freshly read information block bytes.
    pub fn new(info_bytes: &Vec<u8>) -> (b: Bootstrap)
        requires
            info_bytes@.len() >= INFO_BLOCK_SIZE,
        ensures
            b.wf(),
            b.spec_info() == info_block_from(info_bytes@),
            b.spec_next_index() == 0,
            b.spec_table() == Map::<u8, ObjectDetails>::empty(),
    {
        Bootstrap {
            info: InformationBlock::from_bytes(info_bytes),
            next_index: 0,
            table: ObjectTable::new(),
        }
    }

    /// The register span of the next table element to read: 6 bytes at
    /// `INFO_BLOCK_SIZE + TABLE_ELEMENT_SIZE * index`, or `None` once every
    /// element announced by the information block has been taken.
    pub fn next_read(&self) -> (r: Option<(u16, u8)>)
        requires
            self.wf(),
        ensures
            match r {
                Some(span) => {
                    &&& self.spec_next_index() < self.spec_info().num_objects
                    &&& span.0 == INFO_BLOCK_SIZE + TABLE_ELEMENT_SIZE
                        * self.spec_next_index()
                    &&& span.1 == TABLE_ELEMENT_SIZE
                },
                None => self.spec_next_index() == self.spec_info().num_objects,
            },
    {
        if self.next_index < self.info.num_objects {
            let addr: u16 = (INFO_BLOCK_SIZE as u16) + (TABLE_ELEMENT_SIZE as u16)
                * (self.next_index as u16);
            Some((addr, TABLE_ELEMENT_SIZE as u8))
        } else {
            None
        }
    }

    /// Take the next table element: its metadata is inserted under its
    /// object type id, exactly as decoded.
    pub fn accept_element(&mut self, e: &ObjectTableElement)
        requires
            old(self).wf(),
            old(self).spec_next_index() < old(self).spec_info().num_objects,
            element_fits(*e),
        ensures
            final(self).wf(),
            final(self).spec_info() == old(self).spec_info(),
            final(self).spec_next_index() == old(self).spec_next_index() + 1,
            final(self).spec_table() == old(self).spec_table().insert(
                e.object_type,
                details_of(*e),
            ),
    {
        self.table.insert_element(e);
        self.next_index = self.next_index + 1;
    }

    /// Whether every announced element has been taken.
    pub fn is_done(&self) -> (done: bool)
        requires
            self.wf(),
        ensures
            done == (self.spec_next_index() == self.spec_info().num_objects),
    {
        self.next_index == self.info.num_objects
    }

    /// Hand out the finished pieces: the information block and the table.
    pub fn finish(self) -> (r: (InformationBlock, ObjectTable))
        requires
            self.wf(),
            self.spec_next_index() == self.spec_info().num_objects,
        ensures
            r.0 == self.spec_info(),
            r.1.view() == self.spec_table(),
            r.1.wf(),
    {
        (self.info, self.table)
    }
}

} // verus!
