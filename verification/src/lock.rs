//! Lock artifacts: their package records, and the removal of the scaffold
//! project's own record.

use crate::error::ReleaseError;
use crate::text::chars_of;
use std::str::FromStr;
use vstd::prelude::*;

verus! {

/// `cargo_lock::Lockfile`: the data of a lock artifact. Nothing is known of
/// a value of it but what the items below say.
#[verifier::external_type_specification]
#[verifier::external_body]
pub struct ExLockfile(cargo_lock::Lockfile);

/// `cargo_lock::Error`: why a text is no lock artifact.
#[verifier::external_type_specification]
#[verifier::external_body]
pub struct ExLockfileError(cargo_lock::Error);

/// What `cargo_lock::Lockfile::from_str` makes of `text`: the lock data, or
/// nothing where `text` is refused.
pub uninterp spec fn parsed_lock(text: Seq<char>) -> Option<cargo_lock::Lockfile>;

/// The name and the version of each package that `lock` lists, in the order of
/// its `packages` field.
pub uninterp spec fn lock_packages(lock: cargo_lock::Lockfile) -> Seq<(Seq<char>, Seq<char>)>;

/// What `cargo_lock::Lockfile::to_string` writes for `lock` once its package
/// list holds, in this order, the packages that stood at the positions
/// `entries`.
pub uninterp spec fn lock_text(lock: cargo_lock::Lockfile, entries: Seq<int>) -> Seq<char>;

/// `cargo_lock::Lockfile::from_str`. The same text always gives the same
/// answer: lock data, or a refusal.
///
/// Only plain text is handed over. `Checksum::from_str`, which reads every
/// checksum of the text, cuts a string of 64 bytes into pairs of bytes, and
/// panics where a cut falls inside a character; a string of the text can hold
/// such a character written out or as an escape. In plain text every string
/// is made of ASCII characters.
#[verifier::external_body]
fn parse_lockfile(text: &str) -> (parsed: Result<cargo_lock::Lockfile, cargo_lock::Error>)
    requires
        is_plain(text@),
    ensures
        (match parsed {
            Ok(lock) => parsed_lock(text@) == Some(lock),
            Err(_) => parsed_lock(text@) is None,
        }),
{
    cargo_lock::Lockfile::from_str(text)
}

/// The length of the `packages` field of a `cargo_lock::Lockfile`.
#[verifier::external_body]
fn package_count(lock: &cargo_lock::Lockfile) -> (count: usize)
    ensures
        count == lock_packages(*lock).len(),
{
    lock.packages.len()
}

/// Reads one item of the `packages` field of a `cargo_lock::Lockfile`: the
/// package's name, as `Name::as_str` gives it, and its version, as
/// `semver::Version` prints it. The record's `entry` is the argument.
#[verifier::external_body]
fn package_at(lock: &cargo_lock::Lockfile, entry: usize) -> (record: PackageRecord)
    requires
        entry < lock_packages(*lock).len(),
    ensures
        record@ == listed(*lock)[entry as int],
{
    let package = &lock.packages[entry];
    PackageRecord {
        name: package.name.as_str().to_string(),
        version: package.version.to_string(),
        entry,
    }
}

/// `cargo_lock::Lockfile::to_string`, on a copy of `lock` whose `packages`
/// field holds only the packages at the positions `entries`, in that order.
/// Every other field of the copy is that of `lock`.
#[verifier::external_body]
fn render_lockfile(lock: &cargo_lock::Lockfile, entries: &Vec<usize>) -> (text: String)
    requires
        forall|i: int| 0 <= i < entries.len() ==> entries[i] < lock_packages(*lock).len(),
    ensures
        text@ == lock_text(*lock, entries@.map_values(|entry: usize| entry as int)),
{
    let mut chosen = lock.clone();
    chosen.packages = entries.iter().map(|entry| lock.packages[*entry].clone()).collect();
    chosen.to_string()
}

/// `c` is an ASCII character, and not the backslash.
pub open spec fn is_plain_char(c: char) -> bool {
    (c as u32) < 0x80 && (c as u32) != 0x5C
}

/// `text` is plain: ASCII characters only, and no backslash, so that it holds
/// no escape. The lock artifacts that the toolchain writes are plain.
pub open spec fn is_plain(text: Seq<char>) -> bool {
    forall|i: int| 0 <= i < text.len() ==> is_plain_char(#[trigger] text[i])
}

/// The lock data that `text` holds: none where `text` is not plain, or is no
/// lock artifact.
pub open spec fn readable_lock(text: Seq<char>) -> Option<cargo_lock::Lockfile> {
    if is_plain(text) {
        parsed_lock(text)
    } else {
        None
    }
}

/// Whether `text` is plain.
pub fn is_plain_text(text: &str) -> (plain: bool)
    ensures
        plain == is_plain(text@),
{
    let chars = chars_of(text);
    let mut i: usize = 0;
    while i < chars.len()
        invariant
            i <= chars.len(),
            chars@ == text@,
            forall|j: int| 0 <= j < i ==> is_plain_char(#[trigger] text@[j]),
        decreases chars.len() - i,
    {
        let code: u32 = chars[i] as u32;
        if code >= 0x80 || code == 0x5C {
            assert(!is_plain_char(text@[i as int]));
            return false;
        }
        i += 1;
    }
    true
}

/// One package of a lock artifact. Of what the artifact records of a package,
/// only the name and the version are read here; `entry` is the package's
/// position in the artifact it was read from, by which the rest is found again.
#[derive(Debug, PartialEq, Eq)]
pub struct PackageRecord {
    pub name: String,
    pub version: String,
    pub entry: usize,
}

/// A package record as plain values.
pub struct RecordView {
    pub name: Seq<char>,
    pub version: Seq<char>,
    pub entry: int,
}

impl View for PackageRecord {
    type V = RecordView;

    open spec fn view(&self) -> RecordView {
        RecordView { name: self.name@, version: self.version@, entry: self.entry as int }
    }
}

impl DeepView for PackageRecord {
    type V = RecordView;

    open spec fn deep_view(&self) -> RecordView {
        self@
    }
}

/// The records of `lock`, each at its own position.
pub open spec fn listed(lock: cargo_lock::Lockfile) -> Seq<RecordView> {
    Seq::new(
        lock_packages(lock).len(),
        |i: int| RecordView { name: lock_packages(lock)[i].0, version: lock_packages(lock)[i].1, entry: i },
    )
}

/// Whether a record stays when `placeholder` is removed.
pub open spec fn is_kept(placeholder: Seq<char>) -> spec_fn(RecordView) -> bool {
    |record: RecordView| record.name != placeholder
}

/// `records` without those named `placeholder`, the others in their order.
pub open spec fn sanitized(records: Seq<RecordView>, placeholder: Seq<char>) -> Seq<RecordView> {
    records.filter(is_kept(placeholder))
}

/// Removes every record whose name is exactly `placeholder`. The records that
/// stay keep their order and all their fields.
pub fn sanitize(packages: Vec<PackageRecord>, placeholder: &str) -> (kept: Vec<PackageRecord>)
    ensures
        kept.deep_view() == sanitized(packages.deep_view(), placeholder@),
        forall|i: int| 0 <= i < kept.len() ==> kept[i].name@ != placeholder@,
{
    let unwanted = placeholder.to_owned();
    let ghost all = packages.deep_view();
    let mut kept: Vec<PackageRecord> = Vec::new();
    for record in it: packages
        invariant
            unwanted@ == placeholder@,
            it.seq().len() == all.len(),
            forall|i: int| 0 <= i < all.len() ==> (#[trigger] it.seq()[i])@ == all[i],
            kept.deep_view() == sanitized(all.take(it.index()), placeholder@),
            forall|i: int| 0 <= i < kept.len() ==> kept[i].name@ != placeholder@,
    {
        proof {
            let before = all.take(it.index());
            let after = all.take(it.index() + 1);
            assert(after.drop_last() =~= before);
            assert(after.last() == record@);
            reveal_with_fuel(Seq::filter, 2);
        }
        if record.name != unwanted {
            kept.push(record);
            assert(kept.deep_view() =~= sanitized(all.take(it.index() + 1), placeholder@));
        }
    }
    assert(all.take(all.len() as int) =~= all);
    kept
}

/// The records of `lock`, in its order.
fn list_packages(lock: &cargo_lock::Lockfile) -> (records: Vec<PackageRecord>)
    ensures
        records.deep_view() == listed(*lock),
{
    let count = package_count(lock);
    let mut records: Vec<PackageRecord> = Vec::new();
    let mut entry: usize = 0;
    while entry < count
        invariant
            count == lock_packages(*lock).len(),
            entry <= count,
            records.len() == entry,
            forall|i: int| 0 <= i < entry ==> (#[trigger] records[i])@ == listed(*lock)[i],
        decreases count - entry,
    {
        records.push(package_at(lock, entry));
        entry += 1;
    }
    assert(records.deep_view() =~= listed(*lock));
    records
}

/// The positions that `records` hold, in their order.
pub open spec fn entries_of(records: Seq<RecordView>) -> Seq<int> {
    records.map_values(|record: RecordView| record.entry)
}

/// The package records of the lock artifact `text`, in the artifact's order,
/// each with its position. A text that is not plain is refused like one that
/// is no lock artifact.
pub fn lock_records(text: &str) -> (records: Result<Vec<PackageRecord>, ReleaseError>)
    ensures
        (match readable_lock(text@) {
            Some(lock) => records matches Ok(found) && found.deep_view() == listed(lock),
            None => records == Err::<Vec<PackageRecord>, ReleaseError>(ReleaseError::LockTool),
        }),
        !is_plain(text@) ==> records == Err::<Vec<PackageRecord>, ReleaseError>(
            ReleaseError::LockTool,
        ),
{
    if !is_plain_text(text) {
        return Err(ReleaseError::LockTool);
    }
    match parse_lockfile(text) {
        Ok(lock) => Ok(list_packages(&lock)),
        Err(_) => Err(ReleaseError::LockTool),
    }
}

/// The lock artifact `text` without the packages named `placeholder`, in the
/// artifact's canonical text form. Everything else that `text` records is
/// written out again. A text that is not plain is refused like one that is no
/// lock artifact.
pub fn sanitize_lock_text(text: &str, placeholder: &str) -> (sanitized_text: Result<String, ReleaseError>)
    ensures
        (match readable_lock(text@) {
            Some(lock) => sanitized_text matches Ok(out) && out@ == lock_text(
                lock,
                entries_of(sanitized(listed(lock), placeholder@)),
            ),
            None => sanitized_text == Err::<String, ReleaseError>(ReleaseError::LockTool),
        }),
        !is_plain(text@) ==> sanitized_text == Err::<String, ReleaseError>(ReleaseError::LockTool),
{
    if !is_plain_text(text) {
        return Err(ReleaseError::LockTool);
    }
    match parse_lockfile(text) {
        Ok(lock) => {
            let kept = sanitize(list_packages(&lock), placeholder);
            let ghost kept_views = sanitized(listed(lock), placeholder@);
            let mut entries: Vec<usize> = Vec::new();
            let mut i: usize = 0;
            while i < kept.len()
                invariant
                    i <= kept.len(),
                    kept.deep_view() == kept_views,
                    entries.len() == i,
                    forall|j: int| 0 <= j < i ==> entries[j] as int == kept_views[j].entry,
                decreases kept.len() - i,
            {
                assert(kept.deep_view()[i as int] == kept[i as int]@);
                entries.push(kept[i].entry);
                i += 1;
            }
            proof {
                assert(entries@.map_values(|entry: usize| entry as int) =~= entries_of(kept_views));
                assert forall|j: int| 0 <= j < entries.len() implies entries[j] < lock_packages(
                    lock,
                ).len() by {
                    lemma_sanitized_from_records(listed(lock), placeholder@, j);
                }
            }
            Ok(render_lockfile(&lock, &entries))
        },
        Err(_) => Err(ReleaseError::LockTool),
    }
}

/// Sanitizing twice gives what sanitizing once gives.
pub proof fn lemma_sanitize_idempotent(records: Seq<RecordView>, placeholder: Seq<char>)
    ensures
        sanitized(sanitized(records, placeholder), placeholder) == sanitized(records, placeholder),
    decreases records.len(),
{
    reveal(Seq::filter);
    if records.len() > 0 {
        let rest = records.drop_last();
        lemma_sanitize_idempotent(rest, placeholder);
        if is_kept(placeholder)(records.last()) {
            let once = sanitized(records, placeholder);
            assert(once.drop_last() =~= sanitized(rest, placeholder));
            assert(once.last() == records.last());
        }
    }
}

/// After sanitizing, no record bears the placeholder name.
pub proof fn lemma_sanitized_has_no_placeholder(records: Seq<RecordView>, placeholder: Seq<char>)
    ensures
        forall|i: int|
            0 <= i < sanitized(records, placeholder).len() ==> (#[trigger] sanitized(
                records,
                placeholder,
            )[i]).name != placeholder,
{
    assert forall|i: int| 0 <= i < sanitized(records, placeholder).len() implies (#[trigger] sanitized(
        records,
        placeholder,
    )[i]).name != placeholder by {
        records.lemma_filter_pred(is_kept(placeholder), i);
    }
}

/// Every record that does not bear the placeholder name is still there after
/// sanitizing.
pub proof fn lemma_sanitized_keeps_others(records: Seq<RecordView>, placeholder: Seq<char>, i: int)
    requires
        0 <= i < records.len(),
        records[i].name != placeholder,
    ensures
        sanitized(records, placeholder).contains(records[i]),
{
    records.lemma_filter_contains(is_kept(placeholder), i);
}

/// Every record found after sanitizing stood in the records before.
pub proof fn lemma_sanitized_from_records(records: Seq<RecordView>, placeholder: Seq<char>, i: int)
    requires
        0 <= i < sanitized(records, placeholder).len(),
    ensures
        records.contains(sanitized(records, placeholder)[i]),
{
    let kept = sanitized(records, placeholder);
    assert(kept.contains(kept[i]));
    records.lemma_filter_contains_rev(is_kept(placeholder), kept[i]);
}

/// Sanitizing keeps the order: it is what is left of `records` when, going
/// through them from the first to the last, those named `placeholder` are
/// passed over.
pub proof fn lemma_sanitized_in_order(records: Seq<RecordView>, placeholder: Seq<char>)
    requires
        records.len() > 0,
    ensures
        sanitized(records, placeholder) == if records.first().name != placeholder {
            seq![records.first()] + sanitized(records.drop_first(), placeholder)
        } else {
            sanitized(records.drop_first(), placeholder)
        },
{
    let rest = records.drop_first();
    assert(records =~= seq![records.first()] + rest);
    rest.lemma_filter_prepend(records.first(), is_kept(placeholder));
    if records.first().name == placeholder {
        assert(Seq::<RecordView>::empty() + sanitized(rest, placeholder) =~= sanitized(rest, placeholder));
    }
}

} // verus!
