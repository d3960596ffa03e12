//! Where a file lies, and what a folder monitor has said about it.

use crate::text::{hex_byte, push_hex_byte};
use vstd::prelude::*;
use vstd::utf8::encode_utf8;

verus! {

/// A file by its place: the names from the root down, under an origin that is
/// empty on this machine and `scheme://host` elsewhere.
#[derive(Debug)]
pub struct FileLocation {
    pub origin: String,
    pub names: Vec<String>,
}

/// A place as a value.
pub ghost struct LocationView {
    pub origin: Seq<char>,
    pub names: Seq<Seq<char>>,
}

/// The texts of a list of strings.
pub open spec fn texts(strings: Seq<String>) -> Seq<Seq<char>> {
    strings.map_values(|string: String| string@)
}

impl View for FileLocation {
    type V = LocationView;

    open spec fn view(&self) -> LocationView {
        LocationView { origin: self.origin@, names: texts(self.names@) }
    }
}

impl LocationView {
    /// The folder that holds the file; a root has none.
    pub open spec fn parent(self) -> Option<LocationView> {
        if self.names.len() == 0 {
            None
        } else {
            Some(LocationView { origin: self.origin, names: self.names.drop_last() })
        }
    }

    /// The last name; a root has none.
    pub open spec fn basename(self) -> Option<Seq<char>> {
        if self.names.len() == 0 {
            None
        } else {
            Some(self.names.last())
        }
    }

    /// The file of that name inside this folder.
    pub open spec fn child(self, name: Seq<char>) -> LocationView {
        LocationView { origin: self.origin, names: self.names.push(name) }
    }

    /// Whether the file lies on this machine.
    pub open spec fn is_local(self) -> bool {
        self.origin.len() == 0
    }

    /// The path below the origin.
    pub open spec fn path(self) -> Seq<char> {
        if self.names.len() == 0 {
            "/"@
        } else {
            joined(self.names)
        }
    }

    /// The whole address, `file:///images/frame.png` on this machine, with the
    /// characters escaped that may not stand in one.
    pub open spec fn uri(self) -> Seq<char> {
        if self.is_local() {
            "file://"@ + escaped(self.path(), true)
        } else {
            self.origin + escaped(self.path(), false)
        }
    }
}

/// Whether a character stands for itself in the path of an address. A semicolon
/// does so only in an address of another machine.
pub open spec fn stands_plain(character: char, local: bool) -> bool {
    ||| 'a' <= character <= 'z'
    ||| 'A' <= character <= 'Z'
    ||| '0' <= character <= '9'
    ||| character == '-' || character == '.' || character == '_' || character == '~'
    ||| character == '!' || character == '$' || character == '&' || character == '\''
    ||| character == '(' || character == ')' || character == '*' || character == '+'
    ||| character == ',' || character == '=' || character == ':' || character == '@'
    ||| character == '/'
    ||| !local && character == ';'
}

/// Bytes, each as a percent sign and two hexadecimal digits.
pub open spec fn percent_bytes(bytes: Seq<u8>) -> Seq<char>
    decreases bytes.len(),
{
    if bytes.len() == 0 {
        seq![]
    } else {
        percent_bytes(bytes.drop_last()) + "%"@ + hex_byte(bytes.last())
    }
}

/// One character in the path of an address: itself, or the bytes of its UTF-8
/// encoding.
pub open spec fn escaped_character(character: char, local: bool) -> Seq<char> {
    if stands_plain(character, local) {
        seq![character]
    } else {
        percent_bytes(encode_utf8(seq![character]))
    }
}

/// A path as it stands in an address.
pub open spec fn escaped(path: Seq<char>, local: bool) -> Seq<char>
    decreases path.len(),
{
    if path.len() == 0 {
        seq![]
    } else {
        escaped(path.drop_last(), local) + escaped_character(path.last(), local)
    }
}

/// Names behind slashes.
pub open spec fn joined(names: Seq<Seq<char>>) -> Seq<char>
    decreases names.len(),
{
    if names.len() == 0 {
        seq![]
    } else {
        joined(names.drop_last()) + "/"@ + names.last()
    }
}

/// The view of a place that may be missing.
pub open spec fn place(file: Option<FileLocation>) -> Option<LocationView> {
    match file {
        Some(file) => Some(file@),
        None => None,
    }
}

fn copy_names(names: &Vec<String>, count: usize) -> (copy: Vec<String>)
    requires
        count <= names@.len(),
    ensures
        texts(copy@) == texts(names@).take(count as int),
{
    let mut copy: Vec<String> = Vec::new();
    let mut index: usize = 0;
    while index < count
        invariant
            index <= count <= names@.len(),
            copy@.len() == index,
            forall|i: int| 0 <= i < index ==> (#[trigger] copy@[i])@ == names@[i]@,
        decreases count - index,
    {
        copy.push(names[index].clone());
        index = index + 1;
    }
    assert(texts(copy@) =~= texts(names@).take(count as int));
    copy
}

impl Clone for FileLocation {
    fn clone(&self) -> (copy: Self)
        ensures
            copy@ == self@,
    {
        let names = copy_names(&self.names, self.names.len());
        assert(texts(names@) == texts(self.names@));
        FileLocation { origin: self.origin.clone(), names }
    }
}

impl FileLocation {
    /// Whether two places are the same.
    pub fn equal(&self, other: &FileLocation) -> (same: bool)
        ensures
            same == (self@ == other@),
    {
        if self.origin != other.origin || self.names.len() != other.names.len() {
            assert(texts(self.names@).len() == self.names@.len());
            assert(texts(other.names@).len() == other.names@.len());
            return false;
        }
        let mut index: usize = 0;
        while index < self.names.len()
            invariant
                index <= self.names@.len() == other.names@.len(),
                forall|i: int|
                    0 <= i < index ==> (#[trigger] self.names@[i])@ == other.names@[i]@,
            decreases self.names@.len() - index,
        {
            if self.names[index] != other.names[index] {
                assert(self@.names[index as int] != other@.names[index as int]);
                return false;
            }
            index = index + 1;
        }
        assert(self@.names =~= other@.names);
        true
    }

    /// The folder that holds the file.
    pub fn parent(&self) -> (parent: Option<FileLocation>)
        ensures
            place(parent) == self@.parent(),
    {
        if self.names.len() == 0 {
            return None;
        }
        let names = copy_names(&self.names, self.names.len() - 1);
        assert(texts(names@) == self@.names.drop_last());
        Some(FileLocation { origin: self.origin.clone(), names })
    }

    /// The last name of the place.
    pub fn basename(&self) -> (name: Option<&String>)
        ensures
            match name {
                Some(name) => self@.basename() == Some(name@),
                None => self@.basename() is None,
            },
    {
        if self.names.len() == 0 {
            None
        } else {
            Some(&self.names[self.names.len() - 1])
        }
    }

    /// The file of that name inside this folder.
    pub fn child(&self, name: &str) -> (child: FileLocation)
        ensures
            child@ == self@.child(name@),
    {
        let mut names = copy_names(&self.names, self.names.len());
        let ghost before = names@;
        names.push(String::from_str(name));
        assert(texts(names@) =~= self@.names.push(name@)) by {
            assert(self@.names.take(self.names@.len() as int) == self@.names);
            assert(texts(names@) =~= texts(before).push(name@));
        }
        FileLocation { origin: self.origin.clone(), names }
    }

    /// Whether the file lies on this machine.
    pub fn is_local(&self) -> (local: bool)
        ensures
            local == self@.is_local(),
    {
        self.origin.as_str().unicode_len() == 0
    }

    /// The path below the origin.
    pub fn path(&self) -> (path: String)
        ensures
            path@ == self@.path(),
    {
        if self.names.len() == 0 {
            return String::from_str("/");
        }
        let mut path = String::new();
        let mut index: usize = 0;
        assert(self@.names.take(0) == Seq::<Seq<char>>::empty());
        while index < self.names.len()
            invariant
                index <= self.names@.len() == self@.names.len(),
                path@ == joined(self@.names.take(index as int)),
            decreases self.names@.len() - index,
        {
            path.append("/");
            path.append(self.names[index].as_str());
            let ghost next = self@.names.take(index + 1);
            assert(next.drop_last() == self@.names.take(index as int));
            index = index + 1;
        }
        assert(self@.names.take(index as int) == self@.names);
        path
    }

    /// The whole address of the file.
    pub fn uri(&self) -> (uri: String)
        ensures
            uri@ == self@.uri(),
    {
        let mut uri = if self.is_local() {
            String::from_str("file://")
        } else {
            self.origin.clone()
        };
        push_escaped(&mut uri, self.path().as_str(), self.is_local());
        uri
    }
}

fn plain(character: char, local: bool) -> (plain: bool)
    ensures
        plain == stands_plain(character, local),
{
    matches!(
        character,
        'a'..='z' | 'A'..='Z' | '0'..='9' | '-' | '.' | '_' | '~' | '!' | '$' | '&' | '\'' | '('
        | ')' | '*' | '+' | ',' | '=' | ':' | '@' | '/'
    ) || !local && character == ';'
}

fn push_percent_bytes(text: &mut String, bytes: &[u8])
    ensures
        final(text)@ == old(text)@ + percent_bytes(bytes@),
{
    let mut index: usize = 0;
    while index < bytes.len()
        invariant
            index <= bytes@.len(),
            text@ == old(text)@ + percent_bytes(bytes@.take(index as int)),
        decreases bytes@.len() - index,
    {
        text.append("%");
        push_hex_byte(text, bytes[index]);
        assert(bytes@.take(index + 1).drop_last() == bytes@.take(index as int));
        assert(text@ == old(text)@ + percent_bytes(bytes@.take(index + 1)));
        index = index + 1;
    }
    assert(bytes@.take(index as int) == bytes@);
}

fn push_escaped(text: &mut String, path: &str, local: bool)
    ensures
        final(text)@ == old(text)@ + escaped(path@, local),
{
    let length: usize = path.unicode_len();
    let mut index: usize = 0;
    while index < length
        invariant
            index <= length == path@.len(),
            text@ == old(text)@ + escaped(path@.take(index as int), local),
        decreases length - index,
    {
        let one = path.substring_char(index, index + 1);
        assert(one@ == seq![path@[index as int]]);
        if plain(path.get_char(index), local) {
            text.append(one);
        } else {
            push_percent_bytes(text, one.as_bytes());
        }
        assert(path@.take(index + 1).drop_last() == path@.take(index as int));
        assert(text@ == old(text)@ + escaped(path@.take(index + 1), local));
        index = index + 1;
    }
    assert(path@.take(index as int) == path@);
}

/// A file lies in the folder that it is a child of, under its own name.
pub proof fn child_lies_in_its_parent(folder: LocationView, name: Seq<char>)
    ensures
        folder.child(name).parent() == Some(folder),
        folder.child(name).basename() == Some(name),
        folder.child(name) != folder,
{
    assert(folder.child(name).names.drop_last() =~= folder.names);
    assert(folder.child(name).names.len() != folder.names.len());
}

/// Every file but a root is the child of its folder.
pub proof fn parent_holds_its_child(file: LocationView)
    requires
        file.parent() is Some,
    ensures
        file.parent()->0.child(file.basename()->0) == file,
{
    assert(file.names.drop_last().push(file.names.last()) =~= file.names);
}

/// A moment, in seconds and nanoseconds since the epoch.
#[derive(Debug, Clone, Copy, PartialEq, Eq, Structural)]
pub struct Timestamp {
    pub seconds: i64,
    pub nanos: u32,
}

/// What a folder monitor reports.
#[derive(Debug, Clone, Copy, PartialEq, Eq, Structural)]
pub enum MonitorEvent {
    Changed,
    ChangesDoneHint,
    AttributeChanged,
    Created,
    MovedIn,
    Deleted,
    MovedOut,
    Moved,
    Renamed,
    PreUnmount,
    Unmounted,
    Other,
}

/// What has been reported since the last refresh.
#[derive(Debug)]
pub struct PendingDirectoryChanges {
    pub refresh_navigation: bool,
    pub current_changed: bool,
    pub current_removed: bool,
    pub current_renamed_to: Option<FileLocation>,
}

/// The pending changes as a value.
pub ghost struct PendingView {
    pub refresh_navigation: bool,
    pub current_changed: bool,
    pub current_removed: bool,
    pub current_renamed_to: Option<LocationView>,
}

impl View for PendingDirectoryChanges {
    type V = PendingView;

    open spec fn view(&self) -> PendingView {
        PendingView {
            refresh_navigation: self.refresh_navigation,
            current_changed: self.current_changed,
            current_removed: self.current_removed,
            current_renamed_to: place(self.current_renamed_to),
        }
    }
}

/// Nothing reported yet.
pub open spec fn no_changes() -> PendingView {
    PendingView {
        refresh_navigation: false,
        current_changed: false,
        current_removed: false,
        current_renamed_to: None,
    }
}

impl Default for PendingDirectoryChanges {
    fn default() -> (pending: Self)
        ensures
            pending@ == no_changes(),
    {
        PendingDirectoryChanges {
            refresh_navigation: false,
            current_changed: false,
            current_removed: false,
            current_renamed_to: None,
        }
    }
}

/// What one report adds to the pending changes.
pub open spec fn merged(
    pending: PendingView,
    current: LocationView,
    file: LocationView,
    other: Option<LocationView>,
    event: MonitorEvent,
) -> PendingView {
    let is_current = file == current;
    let is_parent = current.parent() == Some(file);
    let onto_current = other == Some(current);
    let seen = PendingView { refresh_navigation: true, ..pending };
    match event {
        MonitorEvent::Changed | MonitorEvent::ChangesDoneHint => PendingView {
            current_changed: pending.current_changed || is_current,
            ..seen
        },
        MonitorEvent::Created | MonitorEvent::MovedIn => PendingView {
            current_changed: pending.current_changed || is_current || onto_current,
            ..seen
        },
        MonitorEvent::Deleted => PendingView {
            current_removed: pending.current_removed || is_current || is_parent,
            ..seen
        },
        MonitorEvent::MovedOut => PendingView {
            current_removed: pending.current_removed || is_current || is_parent,
            current_renamed_to: if is_current && other is Some {
                other
            } else {
                pending.current_renamed_to
            },
            ..seen
        },
        MonitorEvent::Moved | MonitorEvent::Renamed => PendingView {
            current_changed: pending.current_changed || onto_current,
            current_removed: pending.current_removed || is_current || is_parent,
            current_renamed_to: if is_current {
                other
            } else if is_parent {
                match other {
                    Some(folder) => Some(folder.child(current.names.last())),
                    None => None,
                }
            } else {
                pending.current_renamed_to
            },
            ..seen
        },
        MonitorEvent::PreUnmount | MonitorEvent::Unmounted => PendingView {
            current_removed: true,
            ..seen
        },
        MonitorEvent::AttributeChanged | MonitorEvent::Other => seen,
    }
}

fn copy_of(file: Option<&FileLocation>) -> (copy: Option<FileLocation>)
    ensures
        place(copy) == match file {
            Some(file) => Some(file@),
            None => None,
        },
{
    match file {
        Some(file) => Some(file.clone()),
        None => None,
    }
}

/// Adds one report to the pending changes: `file` is the file that the event
/// is about, `other_file` the other end of a move.
pub fn merge_directory_change(
    pending: &mut PendingDirectoryChanges,
    current: &FileLocation,
    file: &FileLocation,
    other_file: Option<&FileLocation>,
    event: MonitorEvent,
)
    ensures
        final(pending)@ == merged(
            old(pending)@,
            current@,
            file@,
            match other_file {
                Some(other) => Some(other@),
                None => None,
            },
            event,
        ),
{
    let source_is_current = file.equal(current);
    let source_is_parent = match current.parent() {
        Some(parent) => file.equal(&parent),
        None => false,
    };
    let target_is_current = match other_file {
        Some(target) => target.equal(current),
        None => false,
    };
    pending.refresh_navigation = true;
    match event {
        MonitorEvent::Changed | MonitorEvent::ChangesDoneHint => {
            pending.current_changed = pending.current_changed || source_is_current;
        },
        MonitorEvent::AttributeChanged => {},
        MonitorEvent::Created | MonitorEvent::MovedIn => {
            pending.current_changed = pending.current_changed || source_is_current
                || target_is_current;
        },
        MonitorEvent::Deleted => {
            pending.current_removed = pending.current_removed || source_is_current
                || source_is_parent;
        },
        MonitorEvent::MovedOut => {
            if source_is_current && other_file.is_some() {
                pending.current_renamed_to = copy_of(other_file);
            }
            pending.current_removed = pending.current_removed || source_is_current
                || source_is_parent;
        },
        MonitorEvent::Moved | MonitorEvent::Renamed => {
            if source_is_current {
                pending.current_renamed_to = copy_of(other_file);
                pending.current_removed = true;
            } else if source_is_parent {
                pending.current_renamed_to = match (other_file, current.basename()) {
                    (Some(folder), Some(name)) => Some(folder.child(name.as_str())),
                    _ => None,
                };
                pending.current_removed = true;
            }
            pending.current_changed = pending.current_changed || target_is_current;
        },
        MonitorEvent::PreUnmount | MonitorEvent::Unmounted => {
            pending.current_removed = true;
        },
        MonitorEvent::Other => {},
    }
}

/// A report never takes back what an earlier one said: what was seen as
/// changed or removed stays so until the pending changes are taken.
pub proof fn reports_accumulate(
    pending: PendingView,
    current: LocationView,
    file: LocationView,
    other: Option<LocationView>,
    event: MonitorEvent,
)
    ensures
        merged(pending, current, file, other, event).refresh_navigation,
        pending.current_changed ==> merged(pending, current, file, other, event).current_changed,
        pending.current_removed ==> merged(pending, current, file, other, event).current_removed,
{
}

/// A report on an unrelated file, short of an unmount, only asks for a new
/// list of the folder.
pub proof fn unrelated_reports_only_refresh(
    pending: PendingView,
    current: LocationView,
    file: LocationView,
    other: Option<LocationView>,
    event: MonitorEvent,
)
    requires
        file != current,
        current.parent() != Some(file),
        other != Some(current),
        event != MonitorEvent::PreUnmount,
        event != MonitorEvent::Unmounted,
    ensures
        merged(pending, current, file, other, event) == (PendingView {
            refresh_navigation: true,
            ..pending
        }),
{
}

/// When the containing folder is renamed, the file is looked for under its own
/// name in the renamed folder.
pub proof fn renaming_the_folder_moves_the_file(
    pending: PendingView,
    current: LocationView,
    target: LocationView,
)
    requires
        current.parent() is Some,
    ensures
        ({
            let after = merged(
                pending,
                current,
                current.parent()->0,
                Some(target),
                MonitorEvent::Renamed,
            );
            &&& after.current_removed
            &&& after.current_renamed_to is Some
            &&& after.current_renamed_to->0.parent() == Some(target)
            &&& after.current_renamed_to->0.basename() == current.basename()
        }),
{
    let folder = current.parent()->0;
    assert(folder.names.len() != current.names.len());
    child_lies_in_its_parent(target, current.names.last());
}

/// Whether two files, either of which may be missing, are the same.
pub fn files_equal(left: &Option<FileLocation>, right: &Option<FileLocation>) -> (same: bool)
    ensures
        same == (place(*left) == place(*right)),
{
    match (left, right) {
        (Some(left), Some(right)) => left.equal(right),
        (None, None) => true,
        _ => false,
    }
}

/// The first of the candidates that is known to exist. Each comes with
/// whether it is a folder on disk.
pub fn first_existing_folder(candidates: &Vec<(FileLocation, bool)>) -> (folder: Option<
    FileLocation,
>)
    ensures
        match folder {
            Some(folder) => exists|i: int|
                0 <= i < candidates@.len() && (#[trigger] candidates@[i]).1 && folder@
                    == candidates@[i].0@ && forall|j: int|
                    0 <= j < i ==> !(#[trigger] candidates@[j]).1,
            None => forall|i: int| 0 <= i < candidates@.len() ==> !(#[trigger] candidates@[i]).1,
        },
{
    let mut index: usize = 0;
    while index < candidates.len()
        invariant
            index <= candidates@.len(),
            forall|j: int| 0 <= j < index ==> !(#[trigger] candidates@[j]).1,
        decreases candidates@.len() - index,
    {
        if candidates[index].1 {
            return Some(candidates[index].0.clone());
        }
        index = index + 1;
    }
    None
}

/// Whether a file may have other contents than when it was read.
pub open spec fn spec_source_revision_changed(
    previous: Option<Timestamp>,
    current: Option<Timestamp>,
    is_local: bool,
) -> bool {
    is_local ==> previous != current
}

/// Whether a file may have other contents than when it was read: on this
/// machine its modification time tells, elsewhere nothing does.
pub fn source_revision_changed(
    previous: Option<Timestamp>,
    current: Option<Timestamp>,
    is_local: bool,
) -> (changed: bool)
    ensures
        changed == (is_local ==> previous != current),
        changed == spec_source_revision_changed(previous, current, is_local),
{
    if is_local {
        match (previous, current) {
            (Some(previous), Some(current)) => previous != current,
            (None, None) => false,
            _ => true,
        }
    } else {
        true
    }
}

/// Whether the window still shows what an export was started from.
pub fn export_context_matches(
    current_load_generation: u64,
    exported_load_generation: u64,
    current_file: &Option<FileLocation>,
    exported_file: &Option<FileLocation>,
) -> (matches: bool)
    ensures
        matches == (current_load_generation == exported_load_generation && place(*current_file)
            == place(*exported_file)),
{
    current_load_generation == exported_load_generation && files_equal(current_file, exported_file)
}

} // verus!
