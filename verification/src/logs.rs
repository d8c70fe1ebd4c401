//! Logs as they come from the provider: a bundle of entries to be laid out
//! as one text, or plain text.
use crate::text::{chars_of, join3, opt_text};
use vstd::prelude::*;
use vstd::string::*;
use vstd::utf8::{decode_utf8, valid_utf8};

verus! {

/// `std::io::Cursor`, which the bundle reads its bytes through. Nothing is
/// known of what is inside.
#[verifier::external_type_specification]
#[verifier::external_body]
#[verifier::reject_recursive_types(T)]
pub struct ExCursor<T>(std::io::Cursor<T>);

/// `zip::ZipArchive`, the bundle as the `zip` crate holds it. What it holds
/// is known by the name `bundle_entries` alone.
#[verifier::external_type_specification]
#[verifier::external_body]
#[verifier::reject_recursive_types(R)]
pub struct ExZipArchive<R>(zip::ZipArchive<R>);

/// What stands in a bundle, in the bundle's own order: each entry's name
/// and what reading it gives. The outer `None` is an entry that cannot be
/// opened, the inner one an entry whose bytes are no text.
pub uninterp spec fn bundle_entries(
    bundle: zip::ZipArchive<std::io::Cursor<Vec<u8>>>,
) -> Seq<(Seq<char>, Option<Option<Seq<char>>>)>;

/// The entries of the bundle that `ZipArchive::new` reads from bytes, or
/// `None` where it reads none.
pub uninterp spec fn bundle_of(bytes: Seq<u8>) -> Option<
    Seq<(Seq<char>, Option<Option<Seq<char>>>)>,
>;

/// Opens a bundle with `zip::ZipArchive::new` on a cursor over the bytes.
/// Whether the bytes are a bundle, and what it then holds, depends on the
/// bytes alone.
#[verifier::external_body]
fn open_bundle(data: &[u8]) -> (r: Option<zip::ZipArchive<std::io::Cursor<Vec<u8>>>>)
    ensures
        match r {
            Some(bundle) => bundle_of(data@) == Some(bundle_entries(bundle)),
            None => bundle_of(data@).is_none(),
        },
{
    zip::ZipArchive::new(std::io::Cursor::new(data.to_vec())).ok()
}

/// The number of entries, by `ZipArchive::len`.
#[verifier::external_body]
fn bundle_len(bundle: &zip::ZipArchive<std::io::Cursor<Vec<u8>>>) -> (r: usize)
    ensures
        r == bundle_entries(*bundle).len(),
{
    bundle.len()
}

/// What reading the entry called `name` gives: what stands with the first
/// entry of that name, or `None` where no entry has it.
pub open spec fn body_of(
    entries: Seq<(Seq<char>, Option<Option<Seq<char>>>)>,
    name: Seq<char>,
    from: int,
) -> Option<Option<Seq<char>>>
    decreases entries.len() - from,
{
    if from < 0 || from >= entries.len() {
        None
    } else if entries[from].0 == name {
        entries[from].1
    } else {
        body_of(entries, name, from + 1)
    }
}

/// The name of the entry at `index`, by `ZipArchive::by_index` and
/// `ZipFile::name`: `None` where there is no such entry or it cannot be
/// opened. The bundle holds afterwards what it held before.
#[verifier::external_body]
fn entry_name(bundle: &mut zip::ZipArchive<std::io::Cursor<Vec<u8>>>, index: usize) -> (r: Option<
    String,
>)
    ensures
        bundle_entries(*final(bundle)) == bundle_entries(*old(bundle)),
        opt_text(r) == (if index < bundle_entries(*old(bundle)).len() && bundle_entries(
            *old(bundle),
        )[index as int].1.is_some() {
            Some(bundle_entries(*old(bundle))[index as int].0)
        } else {
            None
        }),
{
    bundle.by_index(index).ok().map(|file| file.name().to_string())
}

/// The text of the entry called `name`, by `ZipArchive::by_name` and
/// `Read::read_to_string` on what it returns: `None` where no entry of that
/// name can be opened, `Some(None)` where its bytes cannot be read as text.
/// The bundle holds afterwards what it held before.
#[verifier::external_body]
fn entry_text(bundle: &mut zip::ZipArchive<std::io::Cursor<Vec<u8>>>, name: &str) -> (r: Option<
    Option<String>,
>)
    ensures
        bundle_entries(*final(bundle)) == bundle_entries(*old(bundle)),
        (match r {
            Some(body) => Some(opt_text(body)),
            None => None,
        }) == body_of(bundle_entries(*old(bundle)), name@, 0),
{
    match bundle.by_name(name) {
        Ok(mut file) => {
            let mut text = String::new();
            match std::io::Read::read_to_string(&mut file, &mut text) {
                Ok(_) => Some(Some(text)),
                Err(_) => Some(None),
            }
        },
        Err(_) => None,
    }
}

/// The text that `String::from_utf8_lossy` makes of bytes.
pub uninterp spec fn lossy_text(bytes: Seq<u8>) -> Seq<char>;

/// The text of bytes by `String::from_utf8_lossy`: the text that the bytes
/// encode where they are valid UTF-8, and else that text with a
/// replacement character for what is not.
#[verifier::external_body]
fn text_of_bytes(bytes: &[u8]) -> (r: String)
    ensures
        r@ == lossy_text(bytes@),
        valid_utf8(bytes@) ==> r@ == decode_utf8(bytes@),
{
    String::from_utf8_lossy(bytes).to_string()
}

/// One entry of a bundle as it was read: its name, and its text where the
/// bytes were text.
#[derive(Debug, Clone, PartialEq, Eq)]
pub struct LogEntry {
    pub name: String,
    pub text: Option<String>,
}

/// The model of `LogEntry`: texts as sequences of characters, lists as sequences of
/// models.
pub struct LogEntryModel {
    pub name: Seq<char>,
    pub text: Option<Seq<char>>,
}

impl View for LogEntry {
    type V = LogEntryModel;

    open spec fn view(&self) -> LogEntryModel {
        LogEntryModel { name: self.name@, text: opt_text(self.text) }
    }
}

/// The models of the items of a list.
pub open spec fn entries_model(v: Seq<LogEntry>) -> Seq<LogEntryModel> {
    v.map_values(|e: LogEntry| e@)
}

/// Whether `a` comes before `b` or is equal to it, character by character
/// from position `from` on; a text comes before every text that it begins.
pub open spec fn text_le_from(a: Seq<char>, b: Seq<char>, from: int) -> bool
    decreases a.len() - from,
{
    if from < 0 || from >= a.len() {
        true
    } else if from >= b.len() {
        false
    } else if a[from] != b[from] {
        a[from] < b[from]
    } else {
        text_le_from(a, b, from + 1)
    }
}

/// The order of names: by their characters' code points, the first
/// difference deciding.
pub open spec fn text_le(a: Seq<char>, b: Seq<char>) -> bool {
    text_le_from(a, b, 0)
}

/// Whether `a` comes before `b` or is equal to it.
pub fn name_le(a: &Vec<char>, b: &Vec<char>) -> (r: bool)
    ensures
        r == text_le(a@, b@),
{
    let mut i: usize = 0;
    while i < a.len() && i < b.len()
        invariant
            i <= a.len(),
            i <= b.len(),
            text_le(a@, b@) == text_le_from(a@, b@, i as int),
        decreases a.len() - i,
    {
        if a[i] != b[i] {
            return a[i] < b[i];
        }
        i += 1;
    }
    i >= a.len()
}

/// A sorted list with one more entry, put behind every entry that does
/// not come after it.
pub open spec fn inserted(sorted: Seq<LogEntryModel>, entry: LogEntryModel) -> Seq<LogEntryModel>
    decreases sorted.len(),
{
    if sorted.len() == 0 {
        seq![entry]
    } else if text_le(sorted.last().name, entry.name) {
        sorted.push(entry)
    } else {
        inserted(sorted.drop_last(), entry).push(sorted.last())
    }
}

/// The entries in the order of their names; entries of one name keep their
/// order.
pub open spec fn sorted_by_name(entries: Seq<LogEntryModel>) -> Seq<LogEntryModel>
    decreases entries.len(),
{
    if entries.len() == 0 {
        Seq::empty()
    } else {
        inserted(sorted_by_name(entries.drop_last()), entries.last())
    }
}

/// One entry laid out: an empty line, the name between `===`, and the
/// text, which is empty for bytes that were no text.
pub open spec fn section(entry: LogEntryModel) -> Seq<char> {
    "\n=== "@ + entry.name + " ===\n"@ + (match entry.text {
        Some(text) => text,
        None => Seq::empty(),
    })
}

/// The entries laid out one after the other.
pub open spec fn sections(entries: Seq<LogEntryModel>) -> Seq<char>
    decreases entries.len(),
{
    if entries.len() == 0 {
        Seq::empty()
    } else {
        sections(entries.drop_last()) + section(entries.last())
    }
}

/// A bundle as one text: its entries in the order of their names, each
/// under its name. A bundle without entries gives no text.
pub open spec fn spec_lay_out(entries: Seq<LogEntryModel>) -> Option<Seq<char>> {
    if entries.len() == 0 {
        None
    } else {
        Some(sections(sorted_by_name(entries)))
    }
}

proof fn lemma_inserted_at(sorted: Seq<LogEntryModel>, entry: LogEntryModel, at: int)
    requires
        0 <= at <= sorted.len(),
        at > 0 ==> text_le(sorted[at - 1].name, entry.name),
        forall|j: int| at <= j < sorted.len() ==> !text_le((#[trigger] sorted[j]).name, entry.name),
    ensures
        inserted(sorted, entry) == sorted.take(at).push(entry) + sorted.skip(at),
    decreases sorted.len(),
{
    if sorted.len() == 0 {
        assert(sorted.take(at).push(entry) + sorted.skip(at) =~= seq![entry]);
    } else if at == sorted.len() {
        assert(sorted.take(at).push(entry) + sorted.skip(at) =~= sorted.push(entry));
    } else {
        let front = sorted.drop_last();
        assert(!text_le(sorted[sorted.len() - 1].name, entry.name));
        assert forall|j: int| at <= j < front.len() implies !text_le(
            (#[trigger] front[j]).name,
            entry.name,
        ) by {
            assert(front[j] == sorted[j]);
        }
        if at > 0 {
            assert(front[at - 1] == sorted[at - 1]);
        }
        lemma_inserted_at(front, entry, at);
        assert((front.take(at).push(entry) + front.skip(at)).push(sorted.last()) =~= sorted.take(
            at,
        ).push(entry) + sorted.skip(at));
    }
}

/// The entries in the order of their names.
pub fn sort_by_name(entries: Vec<LogEntry>) -> (r: Vec<LogEntry>)
    ensures
        entries_model(r@) == sorted_by_name(entries_model(entries@)),
{
    let ghost all = entries_model(entries@);
    let mut out: Vec<LogEntry> = Vec::new();
    assert(entries_model(out@) =~= sorted_by_name(all.take(0)));
    for entry in it: entries
        invariant
            all == entries_model(it.seq()),
            entries_model(out@) == sorted_by_name(all.take(it.index@)),
    {
        let ghost before = entries_model(out@);
        let name = chars_of(entry.name.as_str());
        let mut at: usize = out.len();
        while at > 0 && !name_le(&chars_of(out[at - 1].name.as_str()), &name)
            invariant
                at <= out.len(),
                name@ == entry@.name,
                before == entries_model(out@),
                forall|j: int|
                    at <= j < before.len() ==> !text_le((#[trigger] before[j]).name, entry@.name),
            decreases at,
        {
            at -= 1;
        }
        proof {
            if at > 0 {
                assert(before[at - 1] == out@[at - 1]@);
            }
            lemma_inserted_at(before, entry@, at as int);
            assert(all.take(it.index@ + 1).drop_last() =~= all.take(it.index@));
            assert(all.take(it.index@ + 1).last() == entry@);
        }
        out.insert(at, entry);
        assert(entries_model(out@) =~= before.take(at as int).push(entry@) + before.skip(
            at as int,
        ));
    }
    assert(all.take(all.len() as int) =~= all);
    out
}

/// Lays a bundle out as one text: its entries in the order of their names,
/// each under a line with its name.
pub fn lay_out(entries: Vec<LogEntry>) -> (r: Option<String>)
    ensures
        opt_text(r) == spec_lay_out(entries_model(entries@)),
{
    if entries.len() == 0 {
        return None;
    }
    let ghost given = entries_model(entries@);
    let sorted = sort_by_name(entries);
    let ghost all = entries_model(sorted@);
    let mut out = String::new();
    let mut i: usize = 0;
    assert(all.take(0) =~= Seq::<LogEntryModel>::empty());
    while i < sorted.len()
        invariant
            i <= sorted.len(),
            all == entries_model(sorted@),
            out@ == sections(all.take(i as int)),
        decreases sorted.len() - i,
    {
        proof {
            assert(all.take(i + 1).drop_last() =~= all.take(i as int));
            assert(all.take(i + 1).last() == sorted@[i as int]@);
        }
        let head = join3("\n=== ", sorted[i].name.as_str(), " ===\n");
        out.append(head.as_str());
        match &sorted[i].text {
            Some(text) => {
                out.append(text.as_str());
            },
            None => {
                assert(out@ + Seq::<char>::empty() =~= out@);
            },
        }
        assert(out@ =~= sections(all.take(i as int)) + section(sorted@[i as int]@));
        i += 1;
    }
    assert(all.take(sorted.len() as int) =~= all);
    Some(out)
}

/// What reading the first `upto` entries of a bundle gives: for each entry
/// that can be opened, its name with what reading the entry of that name
/// gives.
pub open spec fn readings(
    entries: Seq<(Seq<char>, Option<Option<Seq<char>>>)>,
    upto: int,
) -> Seq<LogEntryModel>
    decreases upto,
{
    if upto <= 0 || upto > entries.len() {
        Seq::empty()
    } else {
        let before = readings(entries, upto - 1);
        let entry = entries[upto - 1];
        if entry.1.is_some() {
            match body_of(entries, entry.0, 0) {
                Some(text) => before.push(LogEntryModel { name: entry.0, text }),
                None => before,
            }
        } else {
            before
        }
    }
}

/// Why bytes gave no text as a bundle.
#[derive(Clone, Copy, PartialEq, Eq, Structural, Debug)]
pub enum BundleError {
    /// The bytes are no bundle.
    NotABundle,
    /// The bundle holds no entry that can be read.
    Empty,
}

/// What a bundle in bytes gives as one text.
pub open spec fn spec_extract(bytes: Seq<u8>) -> Result<Seq<char>, BundleError> {
    match bundle_of(bytes) {
        Some(entries) => match spec_lay_out(readings(entries, entries.len() as int)) {
            Some(text) => Ok(text),
            None => Err(BundleError::Empty),
        },
        None => Err(BundleError::NotABundle),
    }
}

/// The text of logs as they came: the bundle laid out where the bytes are
/// a bundle with something to read, else the bytes as text.
pub open spec fn spec_decode(bytes: Seq<u8>) -> Seq<char> {
    match spec_extract(bytes) {
        Ok(text) => text,
        Err(_) => lossy_text(bytes),
    }
}

/// The characters of a laid-out bundle, or why there is none.
pub open spec fn result_text(r: Result<String, BundleError>) -> Result<Seq<char>, BundleError> {
    match r {
        Ok(text) => Ok(text@),
        Err(e) => Err(e),
    }
}

/// Reads a bundle of logs from bytes and lays it out as one text, the
/// entries in the order of their names, each under a line with its name.
pub fn extract_logs_from_zip(data: &[u8]) -> (r: Result<String, BundleError>)
    ensures
        result_text(r) == spec_extract(data@),
{
    let mut bundle = match open_bundle(data) {
        Some(bundle) => bundle,
        None => {
            return Err(BundleError::NotABundle);
        },
    };
    let ghost entries = bundle_entries(bundle);
    let n = bundle_len(&bundle);
    let mut read: Vec<LogEntry> = Vec::new();
    let mut i: usize = 0;
    assert(entries_model(read@) =~= readings(entries, 0));
    while i < n
        invariant
            i <= n,
            n == entries.len(),
            bundle_entries(bundle) == entries,
            entries_model(read@) == readings(entries, i as int),
        decreases n - i,
    {
        let ghost before = entries_model(read@);
        if let Some(name) = entry_name(&mut bundle, i) {
            if let Some(text) = entry_text(&mut bundle, name.as_str()) {
                let entry = LogEntry { name, text };
                read.push(entry);
                assert(entries_model(read@) =~= before.push(entry@));
            }
        }
        i += 1;
    }
    match lay_out(read) {
        Some(text) => Ok(text),
        None => Err(BundleError::Empty),
    }
}

/// The text of logs as they came from the provider: a bundle is laid out,
/// anything else is taken as text.
pub fn decode_logs(data: &[u8]) -> (r: String)
    ensures
        r@ == spec_decode(data@),
{
    match extract_logs_from_zip(data) {
        Ok(text) => text,
        Err(_) => text_of_bytes(data),
    }
}

proof fn lemma_le_total(a: Seq<char>, b: Seq<char>, from: int)
    requires
        0 <= from,
    ensures
        text_le_from(a, b, from) || text_le_from(b, a, from),
    decreases a.len() - from,
{
    if from < a.len() && from < b.len() && a[from] == b[from] {
        lemma_le_total(a, b, from + 1);
    }
}

/// Whether each entry comes before the next or has its name.
pub open spec fn is_ordered(entries: Seq<LogEntryModel>) -> bool {
    forall|i: int|
        0 <= i < entries.len() - 1 ==> text_le(
            (#[trigger] entries[i]).name,
            entries[i + 1].name,
        )
}

proof fn lemma_inserted_ordered(sorted: Seq<LogEntryModel>, entry: LogEntryModel)
    requires
        is_ordered(sorted),
    ensures
        is_ordered(inserted(sorted, entry)),
        inserted(sorted, entry).len() == sorted.len() + 1,
        inserted(sorted, entry).to_multiset() == sorted.to_multiset().insert(entry),
        sorted.len() > 0 ==> inserted(sorted, entry).last() == (if text_le(
            sorted.last().name,
            entry.name,
        ) {
            entry
        } else {
            sorted.last()
        }),
    decreases sorted.len(),
{
    broadcast use vstd::seq_lib::group_to_multiset_ensures;

    let r = inserted(sorted, entry);
    if sorted.len() == 0 {
        assert(seq![entry] =~= Seq::<LogEntryModel>::empty().push(entry));
    } else if text_le(sorted.last().name, entry.name) {
        assert forall|i: int| 0 <= i < r.len() - 1 implies text_le(
            (#[trigger] r[i]).name,
            r[i + 1].name,
        ) by {
            if i < sorted.len() - 1 {
                assert(r[i] == sorted[i]);
                assert(r[i + 1] == sorted[i + 1]);
            }
        }
    } else {
        let front = sorted.drop_last();
        assert forall|i: int| 0 <= i < front.len() - 1 implies text_le(
            (#[trigger] front[i]).name,
            front[i + 1].name,
        ) by {
            assert(front[i] == sorted[i]);
            assert(front[i + 1] == sorted[i + 1]);
        }
        lemma_inserted_ordered(front, entry);
        let mid = inserted(front, entry);
        lemma_le_total(sorted.last().name, entry.name, 0);
        assert forall|i: int| 0 <= i < r.len() - 1 implies text_le(
            (#[trigger] r[i]).name,
            r[i + 1].name,
        ) by {
            if i < mid.len() - 1 {
                assert(r[i] == mid[i]);
                assert(r[i + 1] == mid[i + 1]);
            } else {
                assert(r[i] == mid.last());
                assert(r[i + 1] == sorted.last());
                if front.len() > 0 {
                    assert(front.last() == sorted[sorted.len() - 2]);
                    assert(text_le(sorted[sorted.len() - 2].name, sorted[sorted.len() - 1].name));
                }
            }
        }
        assert(sorted =~= front.push(sorted.last()));
    }
}

/// Sorting by name gives the same entries, each as often as before, in an
/// order in which no entry comes after the next.
pub proof fn lemma_sorted_by_name(entries: Seq<LogEntryModel>)
    ensures
        is_ordered(sorted_by_name(entries)),
        sorted_by_name(entries).len() == entries.len(),
        sorted_by_name(entries).to_multiset() == entries.to_multiset(),
    decreases entries.len(),
{
    broadcast use vstd::seq_lib::group_to_multiset_ensures;

    if entries.len() > 0 {
        lemma_sorted_by_name(entries.drop_last());
        lemma_inserted_ordered(sorted_by_name(entries.drop_last()), entries.last());
        assert(entries =~= entries.drop_last().push(entries.last()));
    } else {
        assert(entries =~= Seq::<LogEntryModel>::empty());
    }
}

} // verus!
