//! Symbolization: where the executable was loaded, and which binary to read symbols from.
use vstd::prelude::*;

verus! {

/// Error type for symbolization operations
#[derive(Debug)]
pub enum Error {
    /// Failed to access process information
    ProcessAccessError(String),
    /// Failed to read executable path
    ExecutablePathError(String),
    /// Failed to read memory maps
    MemoryMapError(String),
    /// No memory mapping found for the executable
    NoMemoryMapping,
    /// Platform-specific error
    PlatformError(String),
}

/// Builder for a symbol map: reads the binary at `binary_path`, or the
/// running executable when no path is given.
pub struct SymbolMapBuilder<'a> {
    binary_path: Option<&'a str>,
}

impl<'a> SymbolMapBuilder<'a> {
    /// The binary to read symbols from, if one was given.
    pub closed spec fn spec_binary_path(&self) -> Option<&'a str> {
        self.binary_path
    }

    pub fn new() -> (res: Self)
        ensures
            res.spec_binary_path() is None,
    {
        Self { binary_path: None }
    }

    pub fn with_binary_path(self, binary_path: &'a str) -> (res: Self)
        ensures
            res.spec_binary_path() == Some(binary_path),
    {
        let mut this = self;
        this.binary_path = Some(binary_path);
        this
    }

    /// The binary to read symbols from, if one was given.
    pub fn binary_path(&self) -> (res: Option<&'a str>)
        ensures
            res == self.spec_binary_path(),
    {
        self.binary_path
    }
}

/// One mapping of the process's address space: where it starts and, when
/// it maps a file, that file's path.
pub struct MemoryMap {
    pub address: u64,
    pub pathname: Option<String>,
}

/// Whether `m` maps the file at `exe`.
pub open spec fn maps_exe(m: MemoryMap, exe: Seq<char>) -> bool {
    m.pathname matches Some(p) && p@ == exe
}

/// The load offset of the executable at `exe`, given the process's memory
/// maps: the lowest start address among the mappings of that file, or
/// `NoMemoryMapping` when none maps it.
pub fn read_aslr_offset(exe: &String, maps: &Vec<MemoryMap>) -> (res: Result<u64, Error>)
    ensures
        match res {
            Ok(offset) => exists|i: int|
                {
                    &&& 0 <= i < maps@.len()
                    &&& #[trigger] maps_exe(maps@[i], exe@)
                    &&& maps@[i].address == offset
                    &&& forall|j: int|
                        0 <= j < maps@.len() && #[trigger] maps_exe(maps@[j], exe@) ==> offset
                            <= maps@[j].address
                },
            Err(e) => {
                &&& e is NoMemoryMapping
                &&& forall|j: int| 0 <= j < maps@.len() ==> !#[trigger] maps_exe(maps@[j], exe@)
            },
        },
{
    let mut lowest: Option<u64> = None;
    let mut i: usize = 0;
    while i < maps.len()
        invariant
            i <= maps@.len(),
            match lowest {
                Some(a) => exists|k: int|
                    {
                        &&& 0 <= k < i
                        &&& #[trigger] maps_exe(maps@[k], exe@)
                        &&& maps@[k].address == a
                        &&& forall|j: int|
                            0 <= j < i && #[trigger] maps_exe(maps@[j], exe@) ==> a
                                <= maps@[j].address
                    },
                None => forall|j: int| 0 <= j < i ==> !#[trigger] maps_exe(maps@[j], exe@),
            },
        decreases maps@.len() - i,
    {
        let m = &maps[i];
        let is_exe = match &m.pathname {
            Some(p) => *p == *exe,
            None => false,
        };
        assert(is_exe == maps_exe(maps@[i as int], exe@));
        if is_exe {
            lowest = match lowest {
                Some(a) => if m.address < a {
                    Some(m.address)
                } else {
                    Some(a)
                },
                None => Some(m.address),
            };
        }
        i = i + 1;
    }
    match lowest {
        Some(a) => Ok(a),
        None => Err(Error::NoMemoryMapping),
    }
}

} // verus!
