//! The files attached to a student's submission: checking a selection
//! against the limits, which stored files are shown, and the upload queue
//! that reserves, uploads and retries each local file in order.

use vstd::prelude::*;

verus! {

/// An attachment's state on the server.
#[derive(PartialEq, Eq, Structural, Clone, Copy, Debug)]
pub enum AttachmentStatus {
    /// Reserved, bytes not verified yet.
    Pending,
    Ready,
    Submitted,
}

/// The translation key of an attachment's state.
pub fn attachment_status_key(status: AttachmentStatus) -> (res: &'static str)
    ensures
        res@ == match status {
            AttachmentStatus::Pending => "submission.files.pending"@,
            AttachmentStatus::Ready => "submission.files.ready"@,
            AttachmentStatus::Submitted => "submission.files.submitted"@,
        },
{
    proof {
        reveal_strlit("submission.files.pending");
        reveal_strlit("submission.files.ready");
        reveal_strlit("submission.files.submitted");
    }
    match status {
        AttachmentStatus::Pending => "submission.files.pending",
        AttachmentStatus::Ready => "submission.files.ready",
        AttachmentStatus::Submitted => "submission.files.submitted",
    }
}

/// A stored file can be downloaded once its bytes are verified.
pub fn can_download(status: AttachmentStatus) -> (res: bool)
    ensures
        res == (status != AttachmentStatus::Pending),
{
    status != AttachmentStatus::Pending
}

/// A stored file can be removed from an editable submission until it is
/// submitted.
pub fn can_remove(editable: bool, status: AttachmentStatus) -> (res: bool)
    ensures
        res == (editable && status != AttachmentStatus::Submitted),
{
    editable && status != AttachmentStatus::Submitted
}

/// A stored attachment, by its id (a UUID as 128 bits).
pub struct StoredAttachment {
    pub id: u128,
    pub filename: String,
    pub byte_size: i64,
    pub status: AttachmentStatus,
}

/// A file picked on this page, not yet (fully) uploaded.
pub struct LocalFile {
    /// The idempotency token of its reservation.
    pub request_id: u128,
    pub filename: String,
    pub media_type: String,
    pub bytes: Vec<u8>,
    /// The attachment reserved for it, once the server granted one.
    pub reserved_id: Option<u128>,
}

/// Whether a local file holds the reservation `id`.
pub open spec fn reserved_by_pending(pending: Seq<LocalFile>, id: u128) -> bool {
    exists|k: int| 0 <= k < pending.len() && pending[k].reserved_id == Some(id)
}

/// The stored files shown as stored: those not still held by a local file
/// (whose reservation it is still completing), in order.
pub open spec fn visible_remote_spec(stored: Seq<StoredAttachment>, pending: Seq<LocalFile>) -> Seq<StoredAttachment>
    decreases stored.len(),
{
    if stored.len() == 0 {
        Seq::empty()
    } else {
        let rest = visible_remote_spec(stored.drop_last(), pending);
        if reserved_by_pending(pending, stored.last().id) {
            rest
        } else {
            rest.push(stored.last())
        }
    }
}

fn held_by_pending(pending: &Vec<LocalFile>, id: u128) -> (res: bool)
    ensures
        res == reserved_by_pending(pending@, id),
{
    let mut i: usize = 0;
    while i < pending.len()
        invariant
            i <= pending.len(),
            forall|k: int| 0 <= k < i ==> pending@[k].reserved_id != Some(id),
        decreases pending.len() - i,
    {
        if let Some(r) = pending[i].reserved_id {
            if r == id {
                return true;
            }
        }
        i = i + 1;
    }
    false
}

fn copy_stored(a: &StoredAttachment) -> (res: StoredAttachment)
    ensures
        res == *a,
{
    StoredAttachment { id: a.id, filename: a.filename.clone(), byte_size: a.byte_size, status: a.status }
}

/// The stored files shown as stored.
pub fn visible_remote(stored: &Vec<StoredAttachment>, pending: &Vec<LocalFile>) -> (res: Vec<StoredAttachment>)
    ensures
        res@ == visible_remote_spec(stored@, pending@),
{
    let mut out: Vec<StoredAttachment> = Vec::new();
    let mut i: usize = 0;
    while i < stored.len()
        invariant
            i <= stored.len(),
            out@ == visible_remote_spec(stored@.take(i as int), pending@),
        decreases stored.len() - i,
    {
        assert(stored@.take(i + 1).drop_last() =~= stored@.take(i as int));
        if !held_by_pending(pending, stored[i].id) {
            out.push(copy_stored(&stored[i]));
        }
        i = i + 1;
    }
    assert(stored@.take(stored.len() as int) =~= stored@);
    out
}

/// The limits of a submission's files.
pub struct FileLimits {
    pub max_files: usize,
    pub max_total_bytes: u64,
    pub max_file_bytes: u64,
}

pub open spec fn sum_sizes(sizes: Seq<u64>) -> int
    decreases sizes.len(),
{
    if sizes.len() == 0 {
        0
    } else {
        sum_sizes(sizes.drop_last()) + sizes.last()
    }
}

/// A new selection is refused when the files would exceed the count, their
/// bytes the total, or any new file is empty or above the per-file limit.
pub open spec fn selection_refused(
    new_sizes: Seq<u64>,
    pending_sizes: Seq<u64>,
    remote_sizes: Seq<u64>,
    limits: FileLimits,
) -> bool {
    ||| new_sizes.len() + pending_sizes.len() + remote_sizes.len() > limits.max_files
    ||| sum_sizes(new_sizes) + sum_sizes(pending_sizes) + sum_sizes(remote_sizes) > limits.max_total_bytes
    ||| exists|k: int| 0 <= k < new_sizes.len() && (new_sizes[k] == 0 || new_sizes[k] > limits.max_file_bytes)
}

/// A list's total is never negative and is at least each of its sizes.
pub proof fn lemma_total_covers_each_size(sizes: Seq<u64>)
    ensures
        sum_sizes(sizes) >= 0,
        forall|i: int| 0 <= i < sizes.len() ==> sum_sizes(sizes) >= #[trigger] sizes[i],
    decreases sizes.len(),
{
    if sizes.len() > 0 {
        lemma_total_covers_each_size(sizes.drop_last());
        assert forall|i: int| 0 <= i < sizes.len() implies sum_sizes(sizes) >= #[trigger] sizes[i] by {
            if i < sizes.len() - 1 {
                assert(sizes.drop_last()[i] == sizes[i]);
            }
        }
    }
}

/// The limits bind new, pending and stored files alike: a selection that
/// would take the files past the count, or the bytes of new, still-pending
/// and stored files together past the total, or that holds an empty or
/// oversized new file, is refused. An accepted one keeps every pair of
/// files, new, pending or stored, within the total, and every new file
/// non-empty and within the per-file limit.
pub proof fn lemma_limits_count_every_file(
    new_sizes: Seq<u64>,
    pending_sizes: Seq<u64>,
    remote_sizes: Seq<u64>,
    limits: FileLimits,
)
    ensures
        new_sizes.len() + pending_sizes.len() + remote_sizes.len() > limits.max_files ==> selection_refused(
            new_sizes,
            pending_sizes,
            remote_sizes,
            limits,
        ),
        sum_sizes(new_sizes) + sum_sizes(pending_sizes) + sum_sizes(remote_sizes) > limits.max_total_bytes
            ==> selection_refused(new_sizes, pending_sizes, remote_sizes, limits),
        !selection_refused(new_sizes, pending_sizes, remote_sizes, limits) ==> {
            &&& forall|i: int, j: int| 0 <= i < new_sizes.len() && 0 <= j < pending_sizes.len()
                ==> #[trigger] new_sizes[i] + #[trigger] pending_sizes[j] <= limits.max_total_bytes
            &&& forall|i: int, k: int| 0 <= i < new_sizes.len() && 0 <= k < remote_sizes.len()
                ==> #[trigger] new_sizes[i] + #[trigger] remote_sizes[k] <= limits.max_total_bytes
            &&& forall|j: int, k: int| 0 <= j < pending_sizes.len() && 0 <= k < remote_sizes.len()
                ==> #[trigger] pending_sizes[j] + #[trigger] remote_sizes[k] <= limits.max_total_bytes
            &&& forall|i: int| 0 <= i < new_sizes.len() ==> 0 < #[trigger] new_sizes[i] <= limits.max_file_bytes
            &&& new_sizes.len() + pending_sizes.len() + remote_sizes.len() <= limits.max_files
        },
{
    lemma_total_covers_each_size(new_sizes);
    lemma_total_covers_each_size(pending_sizes);
    lemma_total_covers_each_size(remote_sizes);
}

fn total_size(sizes: &Vec<u64>) -> (res: u128)
    ensures
        res == sum_sizes(sizes@),
{
    let mut acc: u128 = 0;
    let mut i: usize = 0;
    while i < sizes.len()
        invariant
            i <= sizes.len(),
            acc == sum_sizes(sizes@.take(i as int)),
            acc <= i * 0x1_0000_0000_0000_0000,
        decreases sizes.len() - i,
    {
        assert(sizes@.take(i + 1).drop_last() =~= sizes@.take(i as int));
        proof {
            assert((i + 1) * 0x1_0000_0000_0000_0000 == i * 0x1_0000_0000_0000_0000 + 0x1_0000_0000_0000_0000) by (nonlinear_arith);
            assert(i * 0x1_0000_0000_0000_0000 <= 0xffff_ffff_ffff_ffff * 0x1_0000_0000_0000_0000) by (nonlinear_arith)
                requires
                    i <= 0xffff_ffff_ffff_ffff,
            ;
        }
        acc = acc + sizes[i] as u128;
        i = i + 1;
    }
    assert(sizes@.take(sizes.len() as int) =~= sizes@);
    acc
}

/// Checks a new selection against the limits; sizes in bytes.
pub fn check_selection(new_sizes: &Vec<u64>, pending_sizes: &Vec<u64>, remote_sizes: &Vec<u64>, limits: &FileLimits) -> (refused: bool)
    ensures
        refused == selection_refused(new_sizes@, pending_sizes@, remote_sizes@, *limits),
{
    let n = new_sizes.len() as u128 + pending_sizes.len() as u128 + remote_sizes.len() as u128;
    if n > limits.max_files as u128 {
        return true;
    }
    let max = limits.max_total_bytes as u128;
    let t1 = total_size(new_sizes);
    let t2 = total_size(pending_sizes);
    let t3 = total_size(remote_sizes);
    if t1 > max || t2 > max || t3 > max {
        return true;
    }
    if t1 + t2 + t3 > max {
        return true;
    }
    let mut i: usize = 0;
    while i < new_sizes.len()
        invariant
            i <= new_sizes.len(),
            forall|k: int| 0 <= k < i ==> !(new_sizes@[k] == 0 || new_sizes@[k] > limits.max_file_bytes),
        decreases new_sizes.len() - i,
    {
        if new_sizes[i] == 0 || new_sizes[i] > limits.max_file_bytes {
            return true;
        }
        i = i + 1;
    }
    false
}

/// The SHA-256 digest of `bytes` (32 bytes).
pub uninterp spec fn sha256_of(bytes: Seq<u8>) -> Seq<u8>;

/// `sha2`'s `Sha256::digest`: the 32-byte SHA-256 digest, named by
/// `sha256_of`.
#[verifier::external_body]
fn sha256_digest(bytes: &[u8]) -> (res: Vec<u8>)
    ensures
        res@ == sha256_of(bytes@),
        res@.len() == 32,
{
    <sha2::Sha256 as sha2::Digest>::digest(bytes).to_vec()
}

pub open spec fn hex_digit(d: u8) -> char {
    if d < 10 {
        (48 + d) as char
    } else {
        (87 + d) as char
    }
}

/// Bytes as lower-case hexadecimal, two digits each, high nibble first.
pub open spec fn lower_hex(bytes: Seq<u8>) -> Seq<char>
    decreases bytes.len(),
{
    if bytes.len() == 0 {
        Seq::empty()
    } else {
        lower_hex(bytes.drop_last()) + seq![hex_digit(bytes.last() / 16), hex_digit(bytes.last() % 16)]
    }
}

fn hex_digit_exec(d: u8) -> (res: char)
    requires
        d < 16,
    ensures
        res == hex_digit(d),
{
    if d < 10 {
        (48u8 + d) as char
    } else {
        (87u8 + d) as char
    }
}

/// Bytes as lower-case hexadecimal.
pub fn to_lower_hex(bytes: &Vec<u8>) -> (res: String)
    ensures
        res@ == lower_hex(bytes@),
{
    let mut s = String::new();
    let mut i: usize = 0;
    while i < bytes.len()
        invariant
            i <= bytes.len(),
            s@ == lower_hex(bytes@.take(i as int)),
        decreases bytes.len() - i,
    {
        assert(bytes@.take(i + 1).drop_last() =~= bytes@.take(i as int));
        let b = bytes[i];
        crate::text::push_char(&mut s, hex_digit_exec(b / 16));
        crate::text::push_char(&mut s, hex_digit_exec(b % 16));
        i = i + 1;
        assert(s@ =~= lower_hex(bytes@.take(i as int)));
    }
    assert(bytes@.take(bytes.len() as int) =~= bytes@);
    s
}

/// The hexadecimal SHA-256 of a file's bytes, as its reservation states it.
pub fn sha256_hex(bytes: &Vec<u8>) -> (res: String)
    ensures
        res@ == lower_hex(sha256_of(bytes@)),
{
    let d = sha256_digest(bytes.as_slice());
    to_lower_hex(&d)
}

/// A reservation for a local file: its token, name, type, size and digest.
pub struct AttachmentIntent {
    pub request_id: u128,
    pub filename: String,
    pub media_type: String,
    pub byte_size: i64,
    pub sha256: String,
}

/// Local files other than the one with this token.
pub open spec fn other_request(request_id: u128) -> spec_fn(LocalFile) -> bool {
    |f: LocalFile| f.request_id != request_id
}

/// The reservation request for a local file: its token, name, media type,
/// size in bytes and the lower-case hex SHA-256 of its bytes.
pub open spec fn intent_for(i: AttachmentIntent, f: LocalFile) -> bool {
    &&& i.request_id == f.request_id
    &&& i.filename@ == f.filename@
    &&& i.media_type@ == f.media_type@
    &&& i.byte_size == f.bytes@.len()
    &&& i.sha256@ == lower_hex(sha256_of(f.bytes@))
}

/// A local file with the reservation `id` recorded on it, all else kept.
pub open spec fn with_reservation(f: LocalFile, id: u128) -> LocalFile {
    LocalFile { reserved_id: Some(id), ..f }
}

/// The upload queue of a submission's files: the local files in order, and
/// the state of the file panel.
pub struct UploadQueue {
    pub pending: Vec<LocalFile>,
    pub busy: bool,
    pub error: bool,
    /// The stored list is current.
    pub loaded: bool,
    pub epoch: u64,
}

/// What the queue asks of the page next.
pub enum QueueStep {
    /// Reserve an attachment for the first local file.
    Reserve(AttachmentIntent),
    /// Upload the first local file's bytes to its reservation.
    Upload(u128),
    /// Stop: reload the stored list.
    Done,
}

impl UploadQueue {
    pub fn new() -> (res: Self)
        ensures
            res.pending@.len() == 0 && !res.busy && !res.error && !res.loaded && res.epoch == 0,
    {
        UploadQueue { pending: Vec::new(), busy: false, error: false, loaded: false, epoch: 0 }
    }

    /// Whether files remain to upload (the page warns before submitting).
    pub fn unuploaded(&self) -> (res: bool)
        ensures
            res == (self.pending@.len() > 0),
    {
        self.pending.len() > 0
    }

    fn next_intent(&self) -> (res: AttachmentIntent)
        requires
            self.pending@.len() > 0,
            self.pending@[0].bytes@.len() <= i64::MAX,
        ensures
            intent_for(res, self.pending@[0]),
    {
        let f = &self.pending[0];
        AttachmentIntent {
            request_id: f.request_id,
            filename: f.filename.clone(),
            media_type: f.media_type.clone(),
            byte_size: f.bytes.len() as i64,
            sha256: sha256_hex(&f.bytes),
        }
    }

    /// "Upload": nothing while busy or with nothing to upload; else the
    /// first file's reservation is asked for.
    pub fn start(&mut self) -> (res: Option<QueueStep>)
        requires
            forall|k: int| 0 <= k < old(self).pending@.len() ==> (#[trigger] old(self).pending@[k]).bytes@.len() <= i64::MAX,
        ensures
            (old(self).busy || old(self).pending@.len() == 0) ==> res.is_none() && final(self).busy == old(self).busy
                && final(self).error == old(self).error,
            !(old(self).busy || old(self).pending@.len() == 0) ==> (res matches Some(QueueStep::Reserve(i))
                && intent_for(i, old(self).pending@[0]) && final(self).busy && !final(self).error),
            final(self).pending@ == old(self).pending@,
            final(self).loaded == old(self).loaded && final(self).epoch == old(self).epoch,
    {
        if self.busy || self.pending.len() == 0 {
            return None;
        }
        self.busy = true;
        self.error = false;
        Some(QueueStep::Reserve(self.next_intent()))
    }

    fn finish(&mut self, failed: bool) -> (res: QueueStep)
        requires
            old(self).epoch < u64::MAX,
        ensures
            res is Done,
            !final(self).loaded && final(self).epoch == old(self).epoch + 1 && !final(self).busy,
            final(self).error == (old(self).error || failed),
            final(self).pending@ == old(self).pending@,
    {
        if failed {
            self.error = true;
        }
        self.loaded = false;
        self.epoch = self.epoch + 1;
        self.busy = false;
        QueueStep::Done
    }

    /// The answer to a reservation: the reserved id is kept on the first
    /// file and its bytes go up; a refusal stops the queue (the list is
    /// reloaded and the file stays for a retry with the same token).
    pub fn reserved(&mut self, reserved_id: Option<u128>) -> (res: QueueStep)
        requires
            old(self).pending@.len() > 0,
            old(self).epoch < u64::MAX,
        ensures
            match reserved_id {
                Some(id) => {
                    &&& res == QueueStep::Upload(id)
                    &&& final(self).pending@ == old(self).pending@.update(0, with_reservation(old(self).pending@[0], id))
                    &&& final(self).busy == old(self).busy && final(self).error == old(self).error
                    &&& final(self).loaded == old(self).loaded && final(self).epoch == old(self).epoch
                },
                None => {
                    &&& res is Done
                    &&& final(self).pending@ == old(self).pending@
                    &&& final(self).error && !final(self).busy
                    &&& !final(self).loaded && final(self).epoch == old(self).epoch + 1
                },
            },
    {
        match reserved_id {
            Some(id) => {
                let ghost before = self.pending@;
                let mut first = self.pending.remove(0);
                first.reserved_id = Some(id);
                self.pending.insert(0, first);
                assert(self.pending@ =~= before.update(0, with_reservation(before[0], id)));
                QueueStep::Upload(id)
            },
            None => self.finish(true),
        }
    }

    /// The answer to an upload: on success the first file leaves the queue
    /// and the next is reserved, or the queue ends; a failure stops it.
    pub fn uploaded(&mut self, ok: bool) -> (res: QueueStep)
        requires
            old(self).pending@.len() > 0,
            old(self).epoch < u64::MAX,
            forall|k: int| 0 <= k < old(self).pending@.len() ==> (#[trigger] old(self).pending@[k]).bytes@.len() <= i64::MAX,
        ensures
            ok ==> final(self).pending@ == old(self).pending@.drop_first(),
            !ok ==> {
                &&& res is Done
                &&& final(self).pending@ == old(self).pending@
                &&& final(self).error && !final(self).busy
                &&& !final(self).loaded && final(self).epoch == old(self).epoch + 1
            },
            ok && old(self).pending@.len() > 1 ==> {
                &&& res matches QueueStep::Reserve(i) && intent_for(i, old(self).pending@[1])
                &&& final(self).busy == old(self).busy && final(self).error == old(self).error
                &&& final(self).loaded == old(self).loaded && final(self).epoch == old(self).epoch
            },
            ok && old(self).pending@.len() == 1 ==> {
                &&& res is Done
                &&& final(self).error == old(self).error && !final(self).busy
                &&& !final(self).loaded && final(self).epoch == old(self).epoch + 1
            },
    {
        if !ok {
            return self.finish(true);
        }
        let _done = self.pending.remove(0);
        if self.pending.len() > 0 {
            assert(self.pending@[0] == old(self).pending@[1]);
            QueueStep::Reserve(self.next_intent())
        } else {
            self.finish(false)
        }
    }

    /// A local file removed by its token; its reservation (if any) must be
    /// released first, which `released` reports.
    pub fn remove_local(&mut self, request_id: u128, released: bool) -> (reload: bool)
        requires
            old(self).epoch < u64::MAX,
        ensures
            reload == released,
            released ==> final(self).pending@ == old(self).pending@.filter(other_request(request_id))
                && !final(self).loaded && final(self).epoch == old(self).epoch + 1
                && final(self).error == old(self).error,
            !released ==> final(self).pending@ == old(self).pending@ && final(self).error
                && final(self).loaded == old(self).loaded && final(self).epoch == old(self).epoch,
            final(self).busy == old(self).busy,
    {
        if !released {
            self.error = true;
            return false;
        }
        let ghost all = self.pending@;
        let ghost pred = other_request(request_id);
        let mut kept: Vec<LocalFile> = Vec::new();
        let ghost mut i: int = 0;
        assert(all.skip(0) =~= all);
        assert(all.take(0).filter(pred) =~= Seq::<LocalFile>::empty()) by {
            reveal(Seq::filter);
        }
        while self.pending.len() > 0
            invariant
                0 <= i <= all.len(),
                self.pending@ == all.skip(i),
                kept@ == all.take(i).filter(pred),
                pred == other_request(request_id),
                self.epoch == old(self).epoch,
                self.busy == old(self).busy && self.error == old(self).error && self.loaded == old(self).loaded,
            decreases self.pending@.len(),
        {
            let f = self.pending.remove(0);
            proof {
                assert(f == all[i]);
                assert(all.take(i + 1) =~= all.take(i).push(all[i]));
                all.take(i).lemma_filter_push(all[i], pred);
                assert(all.skip(i + 1) =~= all.skip(i).drop_first());
            }
            if f.request_id != request_id {
                kept.push(f);
            }
            proof {
                i = i + 1;
            }
        }
        assert(all.take(i) =~= all);
        self.pending = kept;
        self.loaded = false;
        self.epoch = self.epoch + 1;
        true
    }
}

} // verus!
