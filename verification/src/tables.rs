//! The sensor's register tables: which table a resolution selects, and the
//! set of tables a driver is built with.

use vstd::prelude::*;
use crate::types::Resolution;

verus! {

/// Names of the register tables that the driver sends to the sensor.
#[derive(Clone, Copy, Debug, PartialEq, Eq, Structural)]
pub enum TableId {
    /// Bootstrap table that prepares the sensor for JPEG output.
    JpegInit,
    /// Colour-space table.
    Yuv422,
    /// Format table for JPEG.
    Jpeg,
    Jpeg160x120,
    Jpeg176x144,
    Jpeg320x240,
    Jpeg352x288,
    Jpeg640x480,
    Jpeg800x600,
    Jpeg1024x768,
    Jpeg1280x1024,
    Jpeg1600x1200,
}

impl Resolution {
    /// The table that configures the sensor for this resolution.
    pub open spec fn spec_table(self) -> TableId {
        match self {
            Resolution::Res160x120 => TableId::Jpeg160x120,
            Resolution::Res176x144 => TableId::Jpeg176x144,
            Resolution::Res320x240 => TableId::Jpeg320x240,
            Resolution::Res352x288 => TableId::Jpeg352x288,
            Resolution::Res640x480 => TableId::Jpeg640x480,
            Resolution::Res800x600 => TableId::Jpeg800x600,
            Resolution::Res1024x768 => TableId::Jpeg1024x768,
            Resolution::Res1280x1024 => TableId::Jpeg1280x1024,
            Resolution::Res1600x1200 => TableId::Jpeg1600x1200,
        }
    }

    /// The table that configures the sensor for this resolution.
    pub fn table(&self) -> (id: TableId)
        ensures
            id == self.spec_table(),
    {
        match self {
            Resolution::Res160x120 => TableId::Jpeg160x120,
            Resolution::Res176x144 => TableId::Jpeg176x144,
            Resolution::Res320x240 => TableId::Jpeg320x240,
            Resolution::Res352x288 => TableId::Jpeg352x288,
            Resolution::Res640x480 => TableId::Jpeg640x480,
            Resolution::Res800x600 => TableId::Jpeg800x600,
            Resolution::Res1024x768 => TableId::Jpeg1024x768,
            Resolution::Res1280x1024 => TableId::Jpeg1280x1024,
            Resolution::Res1600x1200 => TableId::Jpeg1600x1200,
        }
    }
}

/// Two different resolutions never select the same table, and no resolution
/// selects one of the three tables sent during initialisation.
pub proof fn lemma_resolution_tables_distinct(a: Resolution, b: Resolution)
    ensures
        a.spec_table() == b.spec_table() <==> a == b,
        a.spec_table() != TableId::JpegInit,
        a.spec_table() != TableId::Yuv422,
        a.spec_table() != TableId::Jpeg,
{
}

/// The contents of every table, each an ordered list of (register, value)
/// pairs. The driver reads them and never changes them.
#[derive(Clone, Debug)]
pub struct RegisterTables {
    pub jpeg_init: Vec<[u8; 2]>,
    pub yuv422: Vec<[u8; 2]>,
    pub jpeg: Vec<[u8; 2]>,
    pub jpeg_160x120: Vec<[u8; 2]>,
    pub jpeg_176x144: Vec<[u8; 2]>,
    pub jpeg_320x240: Vec<[u8; 2]>,
    pub jpeg_352x288: Vec<[u8; 2]>,
    pub jpeg_640x480: Vec<[u8; 2]>,
    pub jpeg_800x600: Vec<[u8; 2]>,
    pub jpeg_1024x768: Vec<[u8; 2]>,
    pub jpeg_1280x1024: Vec<[u8; 2]>,
    pub jpeg_1600x1200: Vec<[u8; 2]>,
}

impl RegisterTables {
    /// The pairs of the table named `id`, in order.
    pub open spec fn spec_table(self, id: TableId) -> Seq<[u8; 2]> {
        match id {
            TableId::JpegInit => self.jpeg_init@,
            TableId::Yuv422 => self.yuv422@,
            TableId::Jpeg => self.jpeg@,
            TableId::Jpeg160x120 => self.jpeg_160x120@,
            TableId::Jpeg176x144 => self.jpeg_176x144@,
            TableId::Jpeg320x240 => self.jpeg_320x240@,
            TableId::Jpeg352x288 => self.jpeg_352x288@,
            TableId::Jpeg640x480 => self.jpeg_640x480@,
            TableId::Jpeg800x600 => self.jpeg_800x600@,
            TableId::Jpeg1024x768 => self.jpeg_1024x768@,
            TableId::Jpeg1280x1024 => self.jpeg_1280x1024@,
            TableId::Jpeg1600x1200 => self.jpeg_1600x1200@,
        }
    }

    /// The table named `id`.
    pub fn table(&self, id: TableId) -> (table: &Vec<[u8; 2]>)
        ensures
            table@ == self.spec_table(id),
    {
        match id {
            TableId::JpegInit => &self.jpeg_init,
            TableId::Yuv422 => &self.yuv422,
            TableId::Jpeg => &self.jpeg,
            TableId::Jpeg160x120 => &self.jpeg_160x120,
            TableId::Jpeg176x144 => &self.jpeg_176x144,
            TableId::Jpeg320x240 => &self.jpeg_320x240,
            TableId::Jpeg352x288 => &self.jpeg_352x288,
            TableId::Jpeg640x480 => &self.jpeg_640x480,
            TableId::Jpeg800x600 => &self.jpeg_800x600,
            TableId::Jpeg1024x768 => &self.jpeg_1024x768,
            TableId::Jpeg1280x1024 => &self.jpeg_1280x1024,
            TableId::Jpeg1600x1200 => &self.jpeg_1600x1200,
        }
    }
}

} // verus!
