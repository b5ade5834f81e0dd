//! A model of a host that performs every read and write faithfully, and
//! what holds of the service when its steps are run against such a host.

use crate::error::{status_of, ErrorKind, STATUS_BAD_REQUEST, STATUS_SERVER_ERROR};
use crate::format::{
    content_type_of, extension_of, format_of_content_type, lemma_extension_round_trip, ImageFormat,
};
use crate::geometry::no_dimension_message;
use crate::handlers::{
    applied, get_step, lacks_dimension, next_step, refusal, transform_step, upload_accepted,
    upload_step,
};
use crate::picture::{croppable, overlap, ImageView};
use crate::protocol::{
    writes, ActionView, CorpImageRequest, EventView, OperationKind, OperationView, ProgressView,
    ReplyView, ResizeImageRequest,
};
use crate::state::ConfigView;
use crate::store::{
    asset_path_of, lemma_bytes_and_record_apart, meta_path_of, no_separator, record_of, MetaView,
};
use vstd::prelude::*;

verus! {

/// What a stored file holds.
pub enum Stored {
    /// The bytes of an asset.
    Bytes(Seq<u8>),
    /// A metadata record.
    Record(MetaView),
}

/// What is stored, by path.
pub struct Disk {
    pub files: Map<Seq<char>, Stored>,
}

/// Whether the model says how the host performs an action: it does for
/// the reads and writes of bytes and records.
pub open spec fn modelled(action: ActionView) -> bool {
    action is ReadMeta || action is ReadFile || action is WriteFile || action is WriteMeta
}

/// What a faithful host leaves on the disk after an action, and what it
/// reports. A write stores what it is given; a read finds what was stored
/// last under the path.
pub open spec fn performed(disk: Disk, action: ActionView) -> (Disk, EventView)
    recommends
        modelled(action),
{
    match action {
        ActionView::WriteFile { path, data } => (
            Disk { files: disk.files.insert(path, Stored::Bytes(data)) },
            EventView::FileWritten,
        ),
        ActionView::WriteMeta { path, meta } => (
            Disk { files: disk.files.insert(path, Stored::Record(meta)) },
            EventView::MetaWritten,
        ),
        ActionView::ReadFile { path } => (
            disk,
            if disk.files.contains_key(path) && disk.files[path] is Bytes {
                EventView::FileLoaded(disk.files[path]->Bytes_0)
            } else {
                EventView::FileMissing
            },
        ),
        ActionView::ReadMeta { path } => (
            disk,
            if !disk.files.contains_key(path) {
                EventView::MetaMissing
            } else if disk.files[path] is Record {
                EventView::MetaLoaded(disk.files[path]->Record_0)
            } else {
                EventView::MetaCorrupt
            },
        ),
        _ => (disk, EventView::FileMissing),
    }
}

/// Runs a request against a faithful host for at most `limit` actions:
/// the disk that is left and the reply, if the request got that far.
pub open spec fn run(conf: ConfigView, disk: Disk, step: (ProgressView, ActionView), limit: nat) -> (
    Disk,
    Option<ReplyView>,
)
    decreases limit,
{
    match step.1 {
        ActionView::Respond(reply) => (disk, Some(reply)),
        action => if limit == 0 || !modelled(action) {
            (disk, None)
        } else {
            let (after, event) = performed(disk, action);
            run(conf, after, next_step(conf, step.0, event), (limit - 1) as nat)
        },
    }
}

/// The disk after an upload of `data` as the asset `id` of `format`.
pub open spec fn with_asset(
    conf: ConfigView,
    disk: Disk,
    id: Seq<char>,
    format: ImageFormat,
    data: Seq<u8>,
) -> Disk {
    Disk {
        files: disk.files.insert(asset_path_of(conf.file_path, id, format), Stored::Bytes(data)).insert(
            meta_path_of(conf.meta_path, id),
            Stored::Record(record_of(format, data.len() as u32)),
        ),
    }
}

/// An accepted upload, run against a faithful host, stores the bytes
/// unchanged and a record of their format and length, and replies with
/// the identifier.
pub proof fn lemma_upload_stores_bytes_and_record(
    conf: ConfigView,
    disk: Disk,
    file_name: Seq<char>,
    content_type: Seq<char>,
    data: Seq<u8>,
    id: Seq<char>,
)
    requires
        upload_accepted(conf, file_name, data),
    ensures
        run(conf, disk, upload_step(conf, file_name, content_type, data, id), 2) == (
            with_asset(conf, disk, id, format_of_content_type(content_type), data),
            Some(
                ReplyView::Uploaded {
                    id,
                    fmt: extension_of(format_of_content_type(content_type)),
                },
            ),
        ),
{
    reveal_with_fuel(run, 3);
}

/// Round trip: after an upload of a known format under a generated
/// identifier, a retrieval of that identifier replies with the uploaded
/// bytes, byte for byte, under the content type of the format.
pub proof fn lemma_upload_then_get_round_trip(
    conf: ConfigView,
    disk: Disk,
    file_name: Seq<char>,
    content_type: Seq<char>,
    data: Seq<u8>,
    id: Seq<char>,
)
    requires
        upload_accepted(conf, file_name, data),
        no_separator(id),
        format_of_content_type(content_type) != ImageFormat::Unknown,
    ensures
        ({
            let format = format_of_content_type(content_type);
            let stored = run(conf, disk, upload_step(conf, file_name, content_type, data, id), 2).0;
            run(conf, stored, get_step(conf, id), 2) == (
                stored,
                Some(ReplyView::Image { content_type: content_type_of(format), data }),
            )
        }),
{
    let format = format_of_content_type(content_type);
    lemma_upload_stores_bytes_and_record(conf, disk, file_name, content_type, data, id);
    lemma_bytes_and_record_apart(conf.file_path, conf.meta_path, id, format);
    lemma_extension_round_trip(format);
    reveal_with_fuel(run, 3);
}

/// An upload without bytes is refused as the client's error with its
/// first step, and that step writes nothing: against any host, nothing is
/// stored for it.
pub proof fn lemma_empty_upload_writes_nothing(
    conf: ConfigView,
    file_name: Seq<char>,
    content_type: Seq<char>,
    data: Seq<u8>,
    id: Seq<char>,
)
    requires
        data.len() == 0,
    ensures
        upload_step(conf, file_name, content_type, data, id) == refusal(
            ErrorKind::Parameter,
            "Missing file or filename"@,
        ),
        !writes(upload_step(conf, file_name, content_type, data, id).1),
        status_of(ErrorKind::Parameter) == STATUS_BAD_REQUEST,
{
}

/// A resize that names neither a width nor a height is refused as the
/// client's error with its first step, and that step writes nothing.
pub proof fn lemma_resize_without_dimension_writes_nothing(
    conf: ConfigView,
    id: Seq<char>,
    maintain_aspect: bool,
    new_id: Seq<char>,
)
    ensures
        ({
            let op = OperationView::Resize(
                ResizeImageRequest { width: None, height: None, maintain_aspect },
            );
            &&& transform_step(conf, id, op, new_id) == refusal(
                ErrorKind::Parameter,
                no_dimension_message(),
            )
            &&& !writes(transform_step(conf, id, op, new_id).1)
        }),
        status_of(ErrorKind::Parameter) == STATUS_BAD_REQUEST,
{
}

/// Once a request has its reply, no event makes it write: whatever the
/// host reports then, the step is a refusal.
pub proof fn lemma_finished_stays_finished(conf: ConfigView, event: EventView)
    ensures
        next_step(conf, ProgressView::Finished, event).0 == ProgressView::Finished,
        !writes(next_step(conf, ProgressView::Finished, event).1),
{
}

/// A retrieval only reads: none of its steps writes, and each leaves it
/// a retrieval or ends it.
pub proof fn lemma_retrieval_never_writes(conf: ConfigView, progress: ProgressView, event: EventView)
    requires
        progress is ResolvingFormat || progress is Fetching,
    ensures
        !writes(next_step(conf, progress, event).1),
        next_step(conf, progress, event).0 is Fetching || next_step(conf, progress, event).0
            is Finished,
{
}

/// A watermarked copy has the dimensions of its source: an image of other
/// dimensions that comes back from the drawing is not saved.
pub proof fn lemma_watermark_keeps_dimensions(
    conf: ConfigView,
    format: ImageFormat,
    new_id: Seq<char>,
    width: u32,
    height: u32,
    event: EventView,
)
    ensures
        ({
            let step = next_step(
                conf,
                ProgressView::Drawing { format, new_id, width, height },
                event,
            );
            step.1 matches ActionView::SaveImage { image, .. } ==> image.width == width
                && image.height == height
        }),
        !(next_step(conf, ProgressView::Drawing { format, new_id, width, height }, event).1
            is WriteFile),
        !(next_step(conf, ProgressView::Drawing { format, new_id, width, height }, event).1
            is WriteMeta),
{
}

/// Every derived asset gets a record: once its image is saved, the step
/// that follows writes the record of the new identifier, with the format
/// of the source and the size of the saved file.
pub proof fn lemma_derived_asset_is_recorded(
    conf: ConfigView,
    format: ImageFormat,
    new_id: Seq<char>,
    kind: OperationKind,
    size: u64,
)
    requires
        size <= u32::MAX,
    ensures
        next_step(
            conf,
            ProgressView::SavingDerived { format, new_id, kind },
            EventView::ImageSaved(size),
        ).1 == (ActionView::WriteMeta {
            path: meta_path_of(conf.meta_path, new_id),
            meta: record_of(format, size as u32),
        }),
{
}

/// Once a transformation has asked for its source, every failure that
/// [`next_step`] tells is the server's: a missing or unparsable record,
/// a record of no known format, missing bytes, a drawing or a save that
/// failed, a record that could not be written.
pub proof fn lemma_transformation_fails_as_server_error(
    conf: ConfigView,
    progress: ProgressView,
    event: EventView,
)
    requires
        progress is LocatingSource || progress is LoadingSource || progress is Drawing
            || progress is SavingDerived || progress is RecordingDerived,
    ensures
        next_step(conf, progress, event).1 matches ActionView::Respond(ReplyView::Failed(e))
            ==> status_of(e.kind) == STATUS_SERVER_ERROR,
{
}

/// An operation on a decoded source fails only as a codec error, the
/// server's, but for a resize that names no dimension, which fails as a
/// parameter error.
pub proof fn lemma_operation_fails_as_codec_error(
    conf: ConfigView,
    format: ImageFormat,
    op: OperationView,
    new_id: Seq<char>,
    src: ImageView,
    next: ProgressView,
    action: ActionView,
)
    requires
        applied(conf, format, op, new_id, src, next, action),
    ensures
        action matches ActionView::Respond(ReplyView::Failed(e)) ==> (e.kind == ErrorKind::Codec
            || (e.kind == ErrorKind::Parameter && lacks_dimension(op))),
        !lacks_dimension(op) ==> (action matches ActionView::Respond(ReplyView::Failed(e))
            ==> status_of(e.kind) == STATUS_SERVER_ERROR),
{
}

/// A crop request for a rectangle of fewer than 2^29 pixels, once its
/// source is decoded, hands out for saving an image of exactly the
/// rectangle's dimensions, whatever the source's are.
pub proof fn lemma_crop_saves_the_rectangle_asked_for(
    conf: ConfigView,
    format: ImageFormat,
    req: CorpImageRequest,
    new_id: Seq<char>,
    src: ImageView,
    next: ProgressView,
    action: ActionView,
)
    requires
        applied(conf, format, OperationView::Crop(req), new_id, src, next, action),
        req.width * req.height < 0x2000_0000,
    ensures
        action matches ActionView::SaveImage { path, image } && image.width == req.width
            && image.height == req.height && path == asset_path_of(
            conf.file_path,
            new_id,
            format,
        ),
{
    lemma_modest_rectangle_is_croppable(src, req.x, req.y, req.width, req.height);
}

/// A rectangle of fewer than 2^29 pixels can be cut from every source, so
/// cropping to it always gives an image of exactly its dimensions.
pub proof fn lemma_modest_rectangle_is_croppable(
    src: ImageView,
    x: u32,
    y: u32,
    width: u32,
    height: u32,
)
    requires
        width * height < 0x2000_0000,
    ensures
        croppable(src, x, y, width, height),
{
    let w = overlap(x, width, src.width);
    let h = overlap(y, height, src.height);
    assert(w * h <= width * height) by (nonlinear_arith)
        requires
            0 <= w <= width,
            0 <= h <= height,
    ;
    assert(4 * width * height == 4 * (width * height)) by (nonlinear_arith);
}

} // verus!
