//! The response that lists files, and what is known of a file.

use crate::error::Error;
use crate::try_buf::{
    fits_u32, put_slice, put_u32, put_u64, string_to_wire, try_put_str, u32_to_be, u64_to_be,
};
use vstd::prelude::*;
use vstd::utf8::encode_utf8;

verus! {

/// The attribute flags of every file on the wire: size, permissions, and
/// access and modification times are present; owner and group are not.
pub const ATTR_FLAGS: u32 = 0x0000_000d;

/// The file type bits of a directory.
pub const MODE_DIRECTORY: u32 = 0x4000;

/// The file type bits of a regular file.
pub const MODE_REGULAR: u32 = 0x8000;

/// One more than the largest value of the permission bits.
pub const PERMISSION_LIMIT: u32 = 0x1000;

/// What is known of one object or prefix in storage.
#[derive(Debug, PartialEq)]
pub struct File {
    /// The name, or the path, as the listing gives it.
    pub name: String,
    /// The size in bytes.
    pub size: u64,
    /// Whether this is a prefix that holds other objects.
    pub is_directory: bool,
    /// The permission bits; of these the low twelve go on the wire.
    pub permissions: u32,
    /// The time of the last change, in seconds since the epoch.
    pub modified: u32,
}

/// What is known of a file, as plain values.
pub struct FileView {
    pub name: Seq<char>,
    pub size: u64,
    pub is_directory: bool,
    pub permissions: u32,
    pub modified: u32,
}

impl View for File {
    type V = FileView;

    open spec fn view(&self) -> FileView {
        FileView {
            name: self.name@,
            size: self.size,
            is_directory: self.is_directory,
            permissions: self.permissions,
            modified: self.modified,
        }
    }
}

/// The plain values of a list of files.
pub open spec fn files_view(files: Seq<File>) -> Seq<FileView> {
    files.map_values(|f: File| f@)
}

impl FileView {
    /// The mode on the wire: the file type bits, then the low twelve
    /// permission bits.
    pub open spec fn mode(self) -> u32 {
        if self.is_directory {
            (MODE_DIRECTORY + self.permissions % PERMISSION_LIMIT) as u32
        } else {
            (MODE_REGULAR + self.permissions % PERMISSION_LIMIT) as u32
        }
    }

    /// The attributes on the wire: the flags, the size, the mode, and the time
    /// of the last change for both the access and the modification time.
    pub open spec fn attrs_to_wire(self) -> Seq<u8> {
        u32_to_be(ATTR_FLAGS) + u64_to_be(self.size) + u32_to_be(self.mode()) + u32_to_be(
            self.modified,
        ) + u32_to_be(self.modified)
    }

    /// Whether the name is short enough for the wire.
    pub open spec fn encodable(self) -> bool {
        fits_u32(encode_utf8(self.name).len())
    }

    /// One entry of a listing on the wire: the name, the name again where the
    /// protocol has a long form of it, and the attributes.
    pub open spec fn entry_to_wire(self) -> Seq<u8> {
        string_to_wire(self.name) + string_to_wire(self.name) + self.attrs_to_wire()
    }
}

/// The entries of a listing on the wire, one after the other.
pub open spec fn entries_to_wire(files: Seq<FileView>) -> Seq<u8>
    decreases files.len(),
{
    if files.len() == 0 {
        Seq::<u8>::empty()
    } else {
        entries_to_wire(files.drop_last()) + files.last().entry_to_wire()
    }
}

impl File {
    /// Appends the attributes to `buf`.
    pub fn put_attrs(&self, buf: &mut Vec<u8>)
        ensures
            final(buf)@ == old(buf)@ + self@.attrs_to_wire(),
    {
        let type_bits = if self.is_directory {
            MODE_DIRECTORY
        } else {
            MODE_REGULAR
        };
        let mut attrs: Vec<u8> = Vec::new();
        put_u32(&mut attrs, ATTR_FLAGS);
        put_u64(&mut attrs, self.size);
        put_u32(&mut attrs, type_bits + self.permissions % PERMISSION_LIMIT);
        put_u32(&mut attrs, self.modified);
        put_u32(&mut attrs, self.modified);
        assert(attrs@ =~= self@.attrs_to_wire());
        put_slice(buf, attrs.as_slice());
    }

    /// Appends the file as one entry of a listing, unless its name is too long
    /// for the wire: then nothing is appended.
    pub fn try_put_entry(&self, buf: &mut Vec<u8>) -> (r: Result<(), Error>)
        ensures
            match r {
                Ok(_) => self@.encodable() && final(buf)@ == old(buf)@ + self@.entry_to_wire(),
                Err(e) => e == Error::Failure && !self@.encodable() && final(buf)@ == old(buf)@,
            },
    {
        let mut entry: Vec<u8> = Vec::new();
        try_put_str(&mut entry, self.name.as_str())?;
        try_put_str(&mut entry, self.name.as_str())?;
        self.put_attrs(&mut entry);
        assert(entry@ =~= self@.entry_to_wire());
        put_slice(buf, entry.as_slice());
        Ok(())
    }
}

/// The answer to a listing or to a request to resolve a path: files by name.
#[derive(Debug, PartialEq)]
pub struct Name {
    pub id: u32,
    pub files: Vec<File>,
}

impl Name {
    /// A `Name` payload on the wire: the request id, the number of entries,
    /// the entries.
    pub open spec fn to_wire(id: u32, files: Seq<FileView>) -> Seq<u8> {
        u32_to_be(id) + u32_to_be(files.len() as u32) + entries_to_wire(files)
    }

    /// Whether a listing can be written out: the number of entries fits 32
    /// bits, and so does the length of each name.
    pub open spec fn files_encodable(files: Seq<FileView>) -> bool {
        fits_u32(files.len()) && forall|i: int| 0 <= i < files.len() ==> (#[trigger] files[i]).encodable()
    }

    /// Whether the listing can be written out.
    pub open spec fn encodable(&self) -> bool {
        Name::files_encodable(files_view(self.files@))
    }

    /// The payload on the wire.
    pub open spec fn wire(&self) -> Seq<u8> {
        Name::to_wire(self.id, files_view(self.files@))
    }

    /// Lays out the payload, unless there are too many entries or a name is
    /// too long for the wire.
    pub fn payload(&self) -> (r: Result<Vec<u8>, Error>)
        ensures
            match r {
                Ok(payload) => self.encodable() && payload@ == self.wire(),
                Err(e) => e == Error::Failure && !self.encodable(),
            },
    {
        if self.files.len() > u32::MAX as usize {
            return Err(Error::Failure);
        }
        let ghost views = files_view(self.files@);
        let mut payload: Vec<u8> = Vec::new();
        put_u32(&mut payload, self.id);
        put_u32(&mut payload, self.files.len() as u32);
        let ghost header = payload@;
        let mut i: usize = 0;
        while i < self.files.len()
            invariant
                i <= self.files@.len(),
                views == files_view(self.files@),
                header == u32_to_be(self.id) + u32_to_be(self.files@.len() as u32),
                payload@ == header + entries_to_wire(views.take(i as int)),
                forall|j: int| 0 <= j < i ==> (#[trigger] views[j]).encodable(),
            decreases self.files@.len() - i,
        {
            let ghost before = payload@;
            match self.files[i].try_put_entry(&mut payload) {
                Ok(_) => {},
                Err(e) => {
                    assert(!views[i as int].encodable());
                    return Err(e);
                },
            }
            proof {
                let next = views.take(i + 1);
                assert(next.drop_last() =~= views.take(i as int));
                assert(next.last() == views[i as int]);
                assert(payload@ =~= header + entries_to_wire(next));
            }
            i += 1;
        }
        assert(views.take(i as int) =~= views);
        Ok(payload)
    }
}

} // verus!
