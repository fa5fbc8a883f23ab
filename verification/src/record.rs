//! The record model: the shape of one `architectures` row.

use vstd::prelude::*;

verus! {

/// Mathematical view of one record: the five columns as plain values.
pub ghost struct ArchView {
    pub arch_id: int,
    pub name: Seq<char>,
    pub status: bool,
    pub version: Seq<char>,
    pub putch: Seq<char>,
}

/// One row of the `architectures` table.
pub struct Architecture {
    pub arch_id: i32,
    pub name: String,
    pub status: bool,
    pub version: String,
    pub putch: String,
}

impl View for Architecture {
    type V = ArchView;

    open spec fn view(&self) -> ArchView {
        ArchView {
            arch_id: self.arch_id as int,
            name: self.name@,
            status: self.status,
            version: self.version@,
            putch: self.putch@,
        }
    }
}

impl Architecture {
    pub fn new(arch_id: i32, name: String, status: bool, version: String, putch: String) -> (r:
        Architecture)
        ensures
            r@ == (ArchView { arch_id: arch_id as int, name: name@, status, version: version@, putch: putch@ }),
    {
        Architecture { arch_id, name, status, version, putch }
    }

    pub fn clone_record(&self) -> (r: Architecture)
        ensures
            r@ == self@,
    {
        Architecture {
            arch_id: self.arch_id,
            name: self.name.clone(),
            status: self.status,
            version: self.version.clone(),
            putch: self.putch.clone(),
        }
    }
}

} // verus!
