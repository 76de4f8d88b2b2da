//! The DDS core device: discovery of its IIO device, the path of its
//! `direct_reg_access` file, and the commands that write its registers.
use vstd::prelude::*;
use vstd::string::*;

use crate::config::{
    DEBUG_ROOT, I_CHANNEL_SOURCE_ADDR, Q_CHANNEL_SOURCE_ADDR, REG_ACCESS_FILE, TARGET_NAME,
};
use crate::text::{all_whitespace, hex_digits, lemma_trim_surrounded, push_hex, trim, trim_str};

verus! {

/// What one enumerated device contributes to discovery: its directory name
/// (`None` when it has none or it is not valid text) and the contents of its
/// `name` file (`None` when it has none).
pub type EntryModel = (Option<Seq<char>>, Option<Seq<char>>);

pub open spec fn opt_chars(o: Option<String>) -> Option<Seq<char>> {
    match o {
        Some(s) => Some(s@),
        None => None,
    }
}

/// A `name` file whose trimmed contents are the DDS core's type string.
pub open spec fn is_target_name(name: Option<Seq<char>>) -> bool {
    name is Some && trim(name->0) == TARGET_NAME@
}

/// Index of the first entry with the DDS core's name, if any.
pub open spec fn first_target(entries: Seq<EntryModel>) -> Option<int>
    decreases entries.len(),
{
    if entries.len() == 0 {
        None
    } else {
        match first_target(entries.drop_last()) {
            Some(i) => Some(i),
            None => if is_target_name(entries.last().1) {
                Some(entries.len() - 1)
            } else {
                None
            },
        }
    }
}

/// The entry that discovery selects is the first one with the DDS core's
/// name; where none has it, nothing is selected.
pub proof fn lemma_first_target(entries: Seq<EntryModel>)
    ensures
        match first_target(entries) {
            Some(i) => 0 <= i < entries.len() && is_target_name(entries[i].1) && forall|j: int|
                0 <= j < i ==> !is_target_name(#[trigger] entries[j].1),
            None => forall|j: int| 0 <= j < entries.len() ==> !is_target_name(#[trigger] entries[j].1),
        },
    decreases entries.len(),
{
    if entries.len() > 0 {
        let front = entries.drop_last();
        lemma_first_target(front);
        assert forall|j: int| 0 <= j < front.len() implies front[j] == entries[j] by {}
    }
}

/// A device identifier that names one directory: non-empty, without `/`.
pub open spec fn is_device_id(id: Seq<char>) -> bool {
    id.len() > 0 && forall|i: int| 0 <= i < id.len() ==> id[i] != '/'
}

/// `<debug root>/<device id>/direct_reg_access`.
pub open spec fn register_path(id: Seq<char>) -> Seq<char> {
    DEBUG_ROOT@ + "/"@ + id + "/"@ + REG_ACCESS_FILE@
}

/// Errors of discovery and of register writes.
#[derive(Debug)]
pub enum DdsError {
    /// No enumerated device carries the DDS core's name.
    NotFound,
    /// The matching device's directory name is missing or not a valid identifier.
    InvalidDeviceId,
    /// Writing the register-access file at `path` failed.
    WriteFailed { path: String },
}

/// What discovery yields for the entries seen: the register-access path of
/// the first matching device, or the error.
pub open spec fn resolve(entries: Seq<EntryModel>) -> Result<Seq<char>, DdsError> {
    match first_target(entries) {
        None => Err(DdsError::NotFound),
        Some(i) => match entries[i].0 {
            Some(id) => if is_device_id(id) {
                Ok(register_path(id))
            } else {
                Err(DdsError::InvalidDeviceId)
            },
            None => Err(DdsError::InvalidDeviceId),
        },
    }
}

/// Discovery succeeds on a device whose `name` file holds the DDS core's name
/// with any whitespace around it, provided no earlier entry matched: the path
/// is the register-access file under that device's directory name.
pub proof fn lemma_discovery_success(
    entries: Seq<EntryModel>,
    i: int,
    id: Seq<char>,
    lead: Seq<char>,
    trail: Seq<char>,
)
    requires
        0 <= i < entries.len(),
        entries[i] == (Some(id), Some(lead + TARGET_NAME@ + trail)),
        all_whitespace(lead),
        all_whitespace(trail),
        is_device_id(id),
        forall|j: int| 0 <= j < i ==> !is_target_name(#[trigger] entries[j].1),
    ensures
        resolve(entries) == Ok::<Seq<char>, DdsError>(register_path(id)),
{
    reveal_strlit("cf-ad9361-dds-core-lpc");
    let t = TARGET_NAME@;
    assert(t.len() == 22);
    assert(t[0] == 'c');
    assert(t.last() == 'c');
    lemma_trim_surrounded(lead, t, trail);
    assert(is_target_name(entries[i].1));
    lemma_first_target(entries);
    let k = first_target(entries)->0;
    assert(k == i) by {
        if k < i {
            assert(!is_target_name(entries[k].1));
        } else if k > i {
            assert(!is_target_name(entries[i].1));
        }
    }
}

/// Discovery fails with `NotFound` when no entry has the DDS core's name.
pub proof fn lemma_discovery_not_found(entries: Seq<EntryModel>)
    requires
        forall|j: int| 0 <= j < entries.len() ==> !is_target_name(#[trigger] entries[j].1),
    ensures
        resolve(entries) == Err::<Seq<char>, DdsError>(DdsError::NotFound),
{
    lemma_first_target(entries);
    if first_target(entries) is Some {
        let k = first_target(entries)->0;
        assert(is_target_name(entries[k].1));
    }
}

/// Decides, entry by entry, which enumerated device is the DDS core.
///
/// The caller lists the enumeration directory and hands each entry to
/// `observe` until `is_done`; the first entry whose name matches is kept.
pub struct DeviceScan {
    selected: Option<Option<String>>,
    seen: Ghost<Seq<EntryModel>>,
}

impl View for DeviceScan {
    type V = Seq<EntryModel>;

    closed spec fn view(&self) -> Seq<EntryModel> {
        self.seen@
    }
}

impl DeviceScan {
    pub closed spec fn wf(&self) -> bool {
        match first_target(self.seen@) {
            None => self.selected is None,
            Some(i) => self.selected is Some && opt_chars(self.selected->0) == self.seen@[i].0,
        }
    }

    /// A scan that has seen no entry.
    pub fn new() -> (r: DeviceScan)
        ensures
            r.wf(),
            r@ == Seq::<EntryModel>::empty(),
    {
        DeviceScan { selected: None, seen: Ghost(Seq::empty()) }
    }

    /// Whether a matching entry has been seen; later entries change nothing.
    pub fn is_done(&self) -> (r: bool)
        requires
            self.wf(),
        ensures
            r == (first_target(self@) is Some),
    {
        self.selected.is_some()
    }

    /// Records one entry: its directory name and the contents of its `name`
    /// file, each `None` where the entry has none.
    pub fn observe(&mut self, device_id: Option<String>, name_contents: Option<String>)
        requires
            old(self).wf(),
        ensures
            final(self).wf(),
            final(self)@ == old(self)@.push((opt_chars(device_id), opt_chars(name_contents))),
    {
        let ghost entry: EntryModel = (opt_chars(device_id), opt_chars(name_contents));
        proof {
            assert(self.seen@.push(entry).drop_last() =~= self.seen@);
        }
        let ghost before = self.seen@;
        if self.selected.is_none() {
            let matched = match &name_contents {
                Some(contents) => name_matches(contents.as_str()),
                None => false,
            };
            if matched {
                self.selected = Some(device_id);
            }
        }
        self.seen = Ghost(self.seen@.push(entry));
        proof {
            assert(self.seen@.drop_last() == before);
            assert(self.seen@.last() == entry);
            lemma_first_target(before);
            if first_target(before) is Some {
                assert(self.seen@[first_target(before)->0] == before[first_target(before)->0]);
            }
        }
    }
}

/// Whether the contents of a `name` file, trimmed, are the DDS core's name.
pub fn name_matches(contents: &str) -> (r: bool)
    ensures
        r == (trim(contents@) == TARGET_NAME@),
{
    let trimmed = String::from_str(trim_str(contents));
    trimmed == String::from_str(TARGET_NAME)
}

/// Whether `id` is non-empty and holds no `/`.
pub fn check_device_id(id: &str) -> (r: bool)
    ensures
        r == is_device_id(id@),
{
    let n = id.unicode_len();
    if n == 0 {
        return false;
    }
    let mut i: usize = 0;
    while i < n
        invariant
            n == id@.len(),
            i <= n,
            forall|j: int| 0 <= j < i ==> id@[j] != '/',
        decreases n - i,
    {
        if id.get_char(i) == '/' {
            return false;
        }
        i = i + 1;
    }
    true
}

/// One register write: the bytes to write, in one write call, to the file at
/// `path`.
#[derive(Debug)]
pub struct RegisterWrite {
    pub path: String,
    pub payload: Vec<u8>,
}

impl View for RegisterWrite {
    type V = (Seq<char>, Seq<u8>);

    open spec fn view(&self) -> (Seq<char>, Seq<u8>) {
        (self.path@, self.payload@)
    }
}

/// The write of `value` to register `address` through the file at `path`.
pub open spec fn register_write(path: Seq<char>, address: u32, value: u32) -> (Seq<char>, Seq<u8>) {
    (path, command_bytes(address, value))
}

/// `0x<address> 0x<value>`, in lowercase hexadecimal without padding.
pub open spec fn command_bytes(address: u32, value: u32) -> Seq<u8> {
    seq![48u8, 120u8] + hex_digits(address as nat) + seq![32u8, 48u8, 120u8] + hex_digits(
        value as nat,
    )
}

/// The register command for `address` and `value`, as bytes.
pub fn register_command(address: u32, value: u32) -> (r: Vec<u8>)
    ensures
        r@ == command_bytes(address, value),
{
    let mut out: Vec<u8> = Vec::new();
    out.push(48u8);
    out.push(120u8);
    push_hex(&mut out, address);
    out.push(32u8);
    out.push(48u8);
    out.push(120u8);
    push_hex(&mut out, value);
    out
}

/// The DDS core, reached through its debugfs `direct_reg_access` file.
#[derive(Debug)]
pub struct DdsCore {
    debug_file_path: String,
}

impl View for DdsCore {
    type V = Seq<char>;

    /// The path of the register-access file.
    closed spec fn view(&self) -> Seq<char> {
        self.debug_file_path@
    }
}

impl DdsCore {
    /// Opens the DDS core that `scan` found: the register-access path of the
    /// first matching device, or why there is none.
    pub fn new(scan: &DeviceScan) -> (r: Result<DdsCore, DdsError>)
        requires
            scan.wf(),
        ensures
            match resolve(scan@) {
                Ok(p) => r is Ok && r->Ok_0@ == p,
                Err(e) => r == Err::<DdsCore, DdsError>(e),
            },
    {
        match &scan.selected {
            None => Err(DdsError::NotFound),
            Some(None) => Err(DdsError::InvalidDeviceId),
            Some(Some(id)) => {
                if check_device_id(id.as_str()) {
                    Ok(DdsCore::from_device_id(id.as_str()))
                } else {
                    Err(DdsError::InvalidDeviceId)
                }
            },
        }
    }

    /// The DDS core whose IIO device directory is named `id`.
    pub fn from_device_id(id: &str) -> (r: DdsCore)
        requires
            is_device_id(id@),
        ensures
            r@ == register_path(id@),
    {
        let mut path = String::from_str(DEBUG_ROOT);
        path.append("/");
        path.append(id);
        path.append("/");
        path.append(REG_ACCESS_FILE);
        DdsCore { debug_file_path: path }
    }

    /// The path of the register-access file.
    pub fn debug_file_path(&self) -> (r: &str)
        ensures
            r@ == self@,
    {
        self.debug_file_path.as_str()
    }

    /// The write that sets register `address` to `value`.
    pub fn write_register(&self, address: u32, value: u32) -> (r: RegisterWrite)
        ensures
            r@ == register_write(self@, address, value),
    {
        RegisterWrite { path: self.debug_file_path.clone(), payload: register_command(address, value) }
    }

    /// The write that sets the I channel source (DDS_CHAN_CNTRL_7).
    pub fn set_i_channel_source(&self, source: u32) -> (r: RegisterWrite)
        ensures
            r@ == register_write(self@, I_CHANNEL_SOURCE_ADDR, source),
    {
        self.write_register(I_CHANNEL_SOURCE_ADDR, source)
    }

    /// The write that sets the Q channel source (DDS_CHAN_CNTRL_8).
    pub fn set_q_channel_source(&self, source: u32) -> (r: RegisterWrite)
        ensures
            r@ == register_write(self@, Q_CHANNEL_SOURCE_ADDR, source),
    {
        self.write_register(Q_CHANNEL_SOURCE_ADDR, source)
    }

    /// The result of a register write, given whether the write call succeeded:
    /// a failure names the register-access path.
    pub fn write_result(&self, succeeded: bool) -> (r: Result<(), DdsError>)
        ensures
            succeeded ==> r is Ok,
            !succeeded ==> r is Err && r->Err_0 is WriteFailed && r->Err_0->path@ == self@,
    {
        if succeeded {
            Ok(())
        } else {
            Err(DdsError::WriteFailed { path: self.debug_file_path.clone() })
        }
    }
}

} // verus!
