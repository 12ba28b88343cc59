//! Scoped storage handles over the block-device file system. A handle is
//! exclusive for its lifetime and is released exactly once on every exit
//! path — explicit early close included, since teardown of an already
//! released handle is a no-op. The device's abstract open/close counts let
//! every scoped operation state the release discipline as a contract: the
//! balance of opens over closes is restored whatever path was taken.

use vstd::prelude::*;

verus! {

/// A storage failure reported by the block device or file system.
#[derive(Clone, Copy, PartialEq, Eq, Structural, Debug)]
pub enum StorageError {
    Device,
}

/// How a file is opened.
#[derive(Clone, Copy, PartialEq, Eq, Structural, Debug)]
pub enum OpenMode {
    Read,
    ReadWriteCreate,
}

/// The block-device file system as the library sees it. `opens()` and
/// `closes()` count the handles the device has handed out and taken back;
/// every method states exactly how the counts move, so callers can prove
/// their open/close balance. Implementors: a real card adapter outside the
/// library, and the counting device used by the tests.
///
/// A verified implementor must override `opens` and `closes` with its own
/// counters: the constant defaults cannot satisfy the method contracts, so
/// an impl that forgets to override them does not verify. The defaults
/// exist only so that a platform adapter outside the verifier can
/// implement the erased trait at all.
pub trait StorageDevice {
    open spec fn opens(&self) -> nat {
        0
    }

    open spec fn closes(&self) -> nat {
        0
    }

    /// Open the volume's root directory.
    fn open_root_dir(&mut self) -> (r: Result<u32, StorageError>)
        ensures
            final(self).closes() == old(self).closes(),
            r is Ok ==> final(self).opens() == old(self).opens() + 1,
            r is Err ==> final(self).opens() == old(self).opens(),
    ;

    /// Open (or create, by mode) a file in an open directory.
    fn open_file_in_dir(&mut self, dir: u32, name: &str, mode: OpenMode) -> (r: Result<
        u32,
        StorageError,
    >)
        ensures
            final(self).closes() == old(self).closes(),
            r is Ok ==> final(self).opens() == old(self).opens() + 1,
            r is Err ==> final(self).opens() == old(self).opens(),
    ;

    /// Release a directory handle.
    fn close_dir(&mut self, dir: u32)
        ensures
            final(self).opens() == old(self).opens(),
            final(self).closes() == old(self).closes() + 1,
    ;

    /// Release a file handle. The handle is taken back even when the
    /// device reports a failure while releasing it.
    fn close_file(&mut self, file: u32) -> (r: Result<(), StorageError>)
        ensures
            final(self).opens() == old(self).opens(),
            final(self).closes() == old(self).closes() + 1,
    ;

    /// Sequential read of an open file's contents.
    fn read(&mut self, file: u32) -> (r: Result<Vec<u8>, StorageError>)
        ensures
            final(self).opens() == old(self).opens(),
            final(self).closes() == old(self).closes(),
    ;

    /// Sequential write to an open file; returns how many bytes went out,
    /// never more than were handed in.
    fn write(&mut self, file: u32, data: &[u8]) -> (r: Result<usize, StorageError>)
        ensures
            final(self).opens() == old(self).opens(),
            final(self).closes() == old(self).closes(),
            r is Ok ==> r->Ok_0 <= data@.len(),
    ;
}

/// Handles handed out minus handles taken back.
pub open spec fn balance<D: StorageDevice>(dev: &D) -> int {
    dev.opens() - dev.closes()
}

/// An exclusive handle on an open directory. `close` releases it exactly
/// once; closing again is a no-op, so an explicit early close followed by
/// scope teardown never double-releases.
pub struct DirHandle {
    dir: Option<u32>,
}

impl DirHandle {
    pub closed spec fn is_open(&self) -> bool {
        self.dir is Some
    }

    pub closed spec fn id(&self) -> u32 {
        self.dir->Some_0
    }

    /// Wrap a directory handle the device already handed out.
    pub fn from(dir: u32) -> (h: DirHandle)
        ensures
            h.is_open(),
            h.id() == dir,
    {
        DirHandle { dir: Some(dir) }
    }

    /// Open the root directory, taking one handle from the device.
    pub fn open_root<D: StorageDevice>(dev: &mut D) -> (r: Result<DirHandle, StorageError>)
        ensures
            final(dev).closes() == old(dev).closes(),
            r is Ok ==> (r->Ok_0).is_open() && final(dev).opens() == old(dev).opens() + 1,
            r is Err ==> final(dev).opens() == old(dev).opens(),
    {
        match dev.open_root_dir() {
            Ok(d) => Ok(DirHandle::from(d)),
            Err(e) => Err(e),
        }
    }

    /// Open a file in this directory, taking one more handle.
    pub fn open_file<D: StorageDevice>(&self, dev: &mut D, name: &str, mode: OpenMode) -> (r:
        Result<FileHandle, StorageError>)
        requires
            self.is_open(),
        ensures
            final(dev).closes() == old(dev).closes(),
            r is Ok ==> (r->Ok_0).is_open() && final(dev).opens() == old(dev).opens() + 1,
            r is Err ==> final(dev).opens() == old(dev).opens(),
    {
        let dir = match &self.dir {
            Some(d) => *d,
            None => 0,
        };
        match dev.open_file_in_dir(dir, name, mode) {
            Ok(f) => Ok(FileHandle::from(f)),
            Err(e) => Err(e),
        }
    }

    /// Release the handle back to the device; a no-op when already
    /// released.
    pub fn close<D: StorageDevice>(&mut self, dev: &mut D)
        ensures
            !final(self).is_open(),
            final(dev).opens() == old(dev).opens(),
            old(self).is_open() ==> final(dev).closes() == old(dev).closes() + 1,
            !old(self).is_open() ==> final(dev).closes() == old(dev).closes(),
    {
        match self.dir.take() {
            Some(d) => dev.close_dir(d),
            None => {},
        }
    }
}

/// An exclusive handle on an open file, with the same release discipline
/// as `DirHandle`.
pub struct FileHandle {
    file: Option<u32>,
}

impl FileHandle {
    pub closed spec fn is_open(&self) -> bool {
        self.file is Some
    }

    pub closed spec fn id(&self) -> u32 {
        self.file->Some_0
    }

    /// Wrap a file handle the device already handed out.
    pub fn from(file: u32) -> (h: FileHandle)
        ensures
            h.is_open(),
            h.id() == file,
    {
        FileHandle { file: Some(file) }
    }

    /// Sequential read of the file's contents. Takes and releases no
    /// handle.
    pub fn read<D: StorageDevice>(&mut self, dev: &mut D) -> (r: Result<Vec<u8>, StorageError>)
        requires
            old(self).is_open(),
        ensures
            final(self).is_open(),
            final(dev).opens() == old(dev).opens(),
            final(dev).closes() == old(dev).closes(),
    {
        let file = match &self.file {
            Some(f) => *f,
            None => 0,
        };
        dev.read(file)
    }

    /// Sequential write to the file. Takes and releases no handle; the
    /// accepted count never exceeds what was handed in.
    pub fn write<D: StorageDevice>(&mut self, dev: &mut D, data: &[u8]) -> (r: Result<
        usize,
        StorageError,
    >)
        requires
            old(self).is_open(),
        ensures
            final(self).is_open(),
            final(dev).opens() == old(dev).opens(),
            final(dev).closes() == old(dev).closes(),
            r is Ok ==> r->Ok_0 <= data@.len(),
    {
        let file = match &self.file {
            Some(f) => *f,
            None => 0,
        };
        dev.write(file, data)
    }

    /// Release the handle back to the device; a no-op when already
    /// released. A device failure while releasing is swallowed: the handle
    /// is gone either way.
    pub fn close<D: StorageDevice>(&mut self, dev: &mut D)
        ensures
            !final(self).is_open(),
            final(dev).opens() == old(dev).opens(),
            old(self).is_open() ==> final(dev).closes() == old(dev).closes() + 1,
            !old(self).is_open() ==> final(dev).closes() == old(dev).closes(),
    {
        match self.file.take() {
            Some(f) => {
                let _ = dev.close_file(f);
            },
            None => {},
        }
    }
}

/// Read a whole file under the scoped-handle discipline: root and file
/// handles are both released on every exit path, early failures included,
/// so the device's open/close balance is restored whatever happened.
pub fn read_file<D: StorageDevice>(dev: &mut D, name: &str) -> (r: Result<Vec<u8>, StorageError>)
    ensures
        balance(final(dev)) == balance(old(dev)),
{
    let mut root = match DirHandle::open_root(dev) {
        Ok(h) => h,
        Err(e) => {
            return Err(e);
        },
    };
    let mut file = match root.open_file(dev, name, OpenMode::Read) {
        Ok(f) => f,
        Err(e) => {
            root.close(dev);
            return Err(e);
        },
    };
    let r = file.read(dev);
    file.close(dev);
    root.close(dev);
    r
}

/// Write a whole file under the scoped-handle discipline: as `read_file`,
/// the open/close balance is restored on every exit path, and an accepted
/// count never exceeds what was handed in.
pub fn write_file<D: StorageDevice>(dev: &mut D, name: &str, data: &[u8]) -> (r: Result<
    usize,
    StorageError,
>)
    ensures
        balance(final(dev)) == balance(old(dev)),
        r is Ok ==> r->Ok_0 <= data@.len(),
{
    let mut root = match DirHandle::open_root(dev) {
        Ok(h) => h,
        Err(e) => {
            return Err(e);
        },
    };
    let mut file = match root.open_file(dev, name, OpenMode::ReadWriteCreate) {
        Ok(f) => f,
        Err(e) => {
            root.close(dev);
            return Err(e);
        },
    };
    let r = file.write(dev, data);
    file.close(dev);
    root.close(dev);
    r
}

/// A counting block device: hands out fresh handle ids, counts opens and
/// closes, stores nothing, and fails on command — the mock the storage
/// scenarios run against, checking that opens equal closes after any
/// scenario, success or failure.
pub struct CountingStorage {
    open_count: u32,
    close_count: u32,
    next_id: u32,
    fail_open_root: bool,
    fail_open_file: bool,
    fail_read: bool,
    fail_write: bool,
    opens_g: Ghost<nat>,
    closes_g: Ghost<nat>,
}

impl CountingStorage {
    pub fn new(
        fail_open_root: bool,
        fail_open_file: bool,
        fail_read: bool,
        fail_write: bool,
    ) -> (d: CountingStorage)
        ensures
            d.opens() == 0,
            d.closes() == 0,
    {
        CountingStorage {
            open_count: 0,
            close_count: 0,
            next_id: 1,
            fail_open_root,
            fail_open_file,
            fail_read,
            fail_write,
            opens_g: Ghost(0),
            closes_g: Ghost(0),
        }
    }

    /// How many handles were handed out (saturating; for inspection).
    pub fn open_calls(&self) -> u32 {
        self.open_count
    }

    /// How many handles were taken back (saturating; for inspection).
    pub fn close_calls(&self) -> u32 {
        self.close_count
    }
}

impl StorageDevice for CountingStorage {
    closed spec fn opens(&self) -> nat {
        self.opens_g@
    }

    closed spec fn closes(&self) -> nat {
        self.closes_g@
    }

    fn open_root_dir(&mut self) -> (r: Result<u32, StorageError>) {
        if self.fail_open_root {
            return Err(StorageError::Device);
        }
        let id = self.next_id;
        if self.next_id < u32::MAX {
            self.next_id = self.next_id + 1;
        }
        if self.open_count < u32::MAX {
            self.open_count = self.open_count + 1;
        }
        self.opens_g = Ghost(self.opens_g@ + 1);
        Ok(id)
    }

    fn open_file_in_dir(&mut self, dir: u32, name: &str, mode: OpenMode) -> (r: Result<
        u32,
        StorageError,
    >) {
        if self.fail_open_file {
            return Err(StorageError::Device);
        }
        let id = self.next_id;
        if self.next_id < u32::MAX {
            self.next_id = self.next_id + 1;
        }
        if self.open_count < u32::MAX {
            self.open_count = self.open_count + 1;
        }
        self.opens_g = Ghost(self.opens_g@ + 1);
        Ok(id)
    }

    fn close_dir(&mut self, dir: u32) {
        if self.close_count < u32::MAX {
            self.close_count = self.close_count + 1;
        }
        self.closes_g = Ghost(self.closes_g@ + 1);
    }

    fn close_file(&mut self, file: u32) -> (r: Result<(), StorageError>) {
        if self.close_count < u32::MAX {
            self.close_count = self.close_count + 1;
        }
        self.closes_g = Ghost(self.closes_g@ + 1);
        Ok(())
    }

    fn read(&mut self, file: u32) -> (r: Result<Vec<u8>, StorageError>) {
        if self.fail_read {
            return Err(StorageError::Device);
        }
        Ok(Vec::new())
    }

    fn write(&mut self, file: u32, data: &[u8]) -> (r: Result<usize, StorageError>) {
        if self.fail_write {
            return Err(StorageError::Device);
        }
        Ok(data.len())
    }
}

} // verus!
