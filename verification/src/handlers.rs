//! The request handlers. Each opens a request with its first step;
//! [`advance`] takes every later one. The host performs what a step asks
//! and comes back with what happened.

use crate::error::{ErrorKind, ServiceError, ServiceErrorView};
use crate::format::{
    content_type_of, detect_image_format, extension_of, format_of_content_type,
    format_of_extension, ImageFormat,
};
use crate::geometry::{
    anchor_of, clamp_i32, clamped_i32, no_dimension_message, resized_dimensions, watermark_anchor,
};
use crate::picture::{
    compress, compress_limit_message, compressible, crop, crop_limit_message, croppable,
    is_crop_of, is_decode_failure, read_image, resizable, resize_image, resize_limit_message,
    Image, ImageView,
};
use crate::protocol::{
    Action, ActionView, CompressImageRequest, CompressImageResponse, CorpImageRequest,
    CorpImageResponse, Event, EventView, FileResponse, Operation, OperationKind, OperationView,
    Progress, ProgressView, Reply, ReplyView, Request, RequestView, ResizeImageRequest,
    ResizeImageResponse, WatermarkRequest, WatermarkResponse,
};
use crate::state::{AppState, ConfigView};
use crate::store::{
    asset_path, asset_path_of, is_uuid_text, meta_path, meta_path_of, random_uuid_text, record_of,
    ImgMetadata,
};
use crate::text::joined;
use vstd::prelude::*;

verus! {

/// A request that ends at once with an error of the given kind and text.
pub open spec fn refusal(kind: ErrorKind, message: Seq<char>) -> (ProgressView, ActionView) {
    (
        ProgressView::Finished,
        ActionView::Respond(ReplyView::Failed(ServiceErrorView { kind, message })),
    )
}

/// The first step of storing an upload: the format is detected from the
/// declared content type, and the bytes go to the asset's path unchanged.
pub open spec fn store_step(
    conf: ConfigView,
    content_type: Seq<char>,
    data: Seq<u8>,
    id: Seq<char>,
) -> (ProgressView, ActionView) {
    let format = format_of_content_type(content_type);
    (
        ProgressView::StoringUpload { id, format, size: data.len() as u32 },
        ActionView::WriteFile { path: asset_path_of(conf.file_path, id, format), data },
    )
}

/// Whether an upload is taken: it has a file name and bytes, and the
/// bytes are within the configured limit and within what a record counts.
pub open spec fn upload_accepted(conf: ConfigView, file_name: Seq<char>, data: Seq<u8>) -> bool {
    &&& file_name.len() > 0
    &&& data.len() > 0
    &&& data.len() <= conf.max_file_size
    &&& data.len() <= u32::MAX
}

/// The first step of an upload: a refusal, or the first step of storing.
pub open spec fn upload_step(
    conf: ConfigView,
    file_name: Seq<char>,
    content_type: Seq<char>,
    data: Seq<u8>,
    id: Seq<char>,
) -> (ProgressView, ActionView) {
    if file_name.len() == 0 || data.len() == 0 {
        refusal(ErrorKind::Parameter, "Missing file or filename"@)
    } else if data.len() > conf.max_file_size || data.len() > u32::MAX {
        refusal(ErrorKind::Parameter, "File too large"@)
    } else {
        store_step(conf, content_type, data, id)
    }
}

/// The first step of a retrieval: the asset's record is asked for.
pub open spec fn get_step(conf: ConfigView, id: Seq<char>) -> (ProgressView, ActionView) {
    (
        ProgressView::ResolvingFormat { id },
        ActionView::ReadMeta { path: meta_path_of(conf.meta_path, id) },
    )
}

/// Whether an operation's parameters are refused before anything is read:
/// a resize that names neither dimension.
pub open spec fn lacks_dimension(op: OperationView) -> bool {
    op matches OperationView::Resize(req) && req.width is None && req.height is None
}

/// The first step of a transformation: a refusal of the parameters, or
/// the source's record is asked for.
pub open spec fn transform_step(
    conf: ConfigView,
    id: Seq<char>,
    op: OperationView,
    new_id: Seq<char>,
) -> (ProgressView, ActionView) {
    if lacks_dimension(op) {
        refusal(ErrorKind::Parameter, no_dimension_message())
    } else {
        (
            ProgressView::LocatingSource { id, op, new_id },
            ActionView::ReadMeta { path: meta_path_of(conf.meta_path, id) },
        )
    }
}

/// The first step of a request, given the identifier that a new asset
/// would get.
pub open spec fn begin(conf: ConfigView, request: RequestView, fresh: Seq<char>) -> (
    ProgressView,
    ActionView,
) {
    match request {
        RequestView::Upload { file_name, content_type, data } => upload_step(
            conf,
            file_name,
            content_type,
            data,
            fresh,
        ),
        RequestView::Get { img_id } => get_step(conf, img_id),
        RequestView::Watermark { img_id, req } => transform_step(
            conf,
            img_id,
            OperationView::Watermark(req),
            fresh,
        ),
        RequestView::Resize { img_id, req } => transform_step(
            conf,
            img_id,
            OperationView::Resize(req),
            fresh,
        ),
        RequestView::Compress { img_id, req } => transform_step(
            conf,
            img_id,
            OperationView::Compress(req),
            fresh,
        ),
        RequestView::Crop { img_id, req } => transform_step(
            conf,
            img_id,
            OperationView::Crop(req),
            fresh,
        ),
    }
}

/// The reply that announces a derived asset.
pub open spec fn derived_reply(kind: OperationKind, new_img_id: Seq<char>) -> ReplyView {
    match kind {
        OperationKind::Watermark => ReplyView::Watermarked { new_img_id },
        OperationKind::Resize => ReplyView::Resized { new_img_id },
        OperationKind::Compress => ReplyView::Compressed { new_img_id },
        OperationKind::Crop => ReplyView::Cropped { new_img_id },
    }
}

/// Where a stored record leads: to the asset's bytes, at the path that
/// the recorded format gives, or, where the record names no known
/// format, to an error of the kind `unknown`. A retrieval reports such a
/// record as a format error, the client's; a transformation, which no
/// codec can do then, as a codec error, the server's.
pub open spec fn located(
    conf: ConfigView,
    id: Seq<char>,
    fmt: Seq<char>,
    waiting: ProgressView,
    unknown: ErrorKind,
) -> (ProgressView, ActionView) {
    let format = format_of_extension(fmt);
    if format == ImageFormat::Unknown {
        refusal(unknown, "unknown image format"@)
    } else {
        (waiting, ActionView::ReadFile { path: asset_path_of(conf.file_path, id, format) })
    }
}

/// The step that follows an event, for every state and event but one:
/// what follows the bytes of a transformation's source is told by
/// [`transformed`].
pub open spec fn next_step(conf: ConfigView, progress: ProgressView, event: EventView) -> (
    ProgressView,
    ActionView,
) {
    match (progress, event) {
        (ProgressView::StoringUpload { id, format, size }, EventView::FileWritten) => (
            ProgressView::RecordingUpload { id, format },
            ActionView::WriteMeta {
                path: meta_path_of(conf.meta_path, id),
                meta: record_of(format, size),
            },
        ),
        (ProgressView::StoringUpload { .. }, EventView::FileCreateFailed) => refusal(
            ErrorKind::Io,
            "Failed to create file"@,
        ),
        (ProgressView::StoringUpload { .. }, EventView::FileWriteFailed) => refusal(
            ErrorKind::Io,
            "Failed to save file"@,
        ),
        (ProgressView::RecordingUpload { id, format }, EventView::MetaWritten) => (
            ProgressView::Finished,
            ActionView::Respond(ReplyView::Uploaded { id, fmt: extension_of(format) }),
        ),
        (ProgressView::RecordingUpload { .. }, EventView::MetaCreateFailed) => refusal(
            ErrorKind::Io,
            "Failed to create metadata file"@,
        ),
        (ProgressView::RecordingUpload { .. }, EventView::MetaWriteFailed) => refusal(
            ErrorKind::Io,
            "Failed to save metadata"@,
        ),
        (ProgressView::ResolvingFormat { id }, EventView::MetaLoaded(meta)) => located(
            conf,
            id,
            meta.fmt,
            ProgressView::Fetching { format: format_of_extension(meta.fmt) },
            ErrorKind::Format,
        ),
        (ProgressView::ResolvingFormat { .. }, EventView::MetaMissing) => refusal(
            ErrorKind::NotFound,
            "Failed to read file meta"@,
        ),
        (ProgressView::ResolvingFormat { .. }, EventView::MetaCorrupt) => refusal(
            ErrorKind::CorruptData,
            "Failed to read file meta"@,
        ),
        (ProgressView::Fetching { format }, EventView::FileLoaded(data)) => (
            ProgressView::Finished,
            ActionView::Respond(ReplyView::Image { content_type: content_type_of(format), data }),
        ),
        (ProgressView::Fetching { .. }, EventView::FileMissing) => refusal(
            ErrorKind::NotFound,
            "Failed to read file data"@,
        ),
        (ProgressView::LocatingSource { id, op, new_id }, EventView::MetaLoaded(meta)) => located(
            conf,
            id,
            meta.fmt,
            ProgressView::LoadingSource { format: format_of_extension(meta.fmt), op, new_id },
            ErrorKind::Codec,
        ),
        (ProgressView::LocatingSource { .. }, EventView::MetaMissing) => refusal(
            ErrorKind::NotFound,
            "Failed to read file meta"@,
        ),
        (ProgressView::LocatingSource { .. }, EventView::MetaCorrupt) => refusal(
            ErrorKind::CorruptData,
            "Failed to read file meta"@,
        ),
        (ProgressView::LoadingSource { .. }, EventView::FileMissing) => refusal(
            ErrorKind::NotFound,
            "Failed to read image"@,
        ),
        (ProgressView::Drawing { format, new_id, width, height }, EventView::TextDrawn(image)) => if image.width
            == width && image.height == height {
            (
                ProgressView::SavingDerived { format, new_id, kind: OperationKind::Watermark },
                ActionView::SaveImage {
                    path: asset_path_of(conf.file_path, new_id, format),
                    image,
                },
            )
        } else {
            refusal(ErrorKind::Codec, "Failed to draw text: the image changed size"@)
        },
        (ProgressView::Drawing { .. }, EventView::TextDrawFailed(detail)) => refusal(
            ErrorKind::Codec,
            "Failed to draw text: "@ + detail,
        ),
        (ProgressView::SavingDerived { format, new_id, kind }, EventView::ImageSaved(size)) => if size
            > u32::MAX {
            refusal(ErrorKind::Io, "Failed to save metadata"@)
        } else {
            (
                ProgressView::RecordingDerived { new_id, kind },
                ActionView::WriteMeta {
                    path: meta_path_of(conf.meta_path, new_id),
                    meta: record_of(format, size as u32),
                },
            )
        },
        (ProgressView::SavingDerived { .. }, EventView::ImageSaveFailed(detail)) => refusal(
            ErrorKind::Codec,
            "Failed to save image: "@ + detail,
        ),
        (ProgressView::RecordingDerived { new_id, kind }, EventView::MetaWritten) => (
            ProgressView::Finished,
            ActionView::Respond(derived_reply(kind, new_id)),
        ),
        (ProgressView::RecordingDerived { .. }, EventView::MetaCreateFailed) => refusal(
            ErrorKind::Io,
            "Failed to create metadata file"@,
        ),
        (ProgressView::RecordingDerived { .. }, EventView::MetaWriteFailed) => refusal(
            ErrorKind::Io,
            "Failed to save metadata"@,
        ),
        _ => refusal(ErrorKind::Io, "Unexpected event"@),
    }
}

/// Whether a step hands a derived image out for saving, at the path of
/// the new asset in the source's format.
pub open spec fn saves(
    conf: ConfigView,
    format: ImageFormat,
    new_id: Seq<char>,
    kind: OperationKind,
    next: ProgressView,
    action: ActionView,
) -> bool {
    &&& next == (ProgressView::SavingDerived { format, new_id, kind })
    &&& action is SaveImage
    &&& action->SaveImage_path == asset_path_of(conf.file_path, new_id, format)
}

/// Whether a step is what an operation makes of the decoded source `src`.
///
/// A watermark hands the source out for drawing, anchored by its named
/// position, and waits for an image of the source's dimensions. The other operations hand the derived image out for saving:
/// a resize with the dimensions of [`resized_dimensions`], a compression
/// with the source's dimensions, a crop with exactly the rectangle asked
/// for. Where the image library cannot do the work, the step is a codec
/// error; a resize without dimensions is a parameter error.
pub open spec fn applied(
    conf: ConfigView,
    format: ImageFormat,
    op: OperationView,
    new_id: Seq<char>,
    src: ImageView,
    next: ProgressView,
    action: ActionView,
) -> bool {
    match op {
        OperationView::Watermark(req) => (next, action) == (
            ProgressView::Drawing { format, new_id, width: src.width, height: src.height },
            ActionView::DrawText {
                image: src,
                text: req.text,
                x: clamped_i32(anchor_of(req.position, src.width, src.height).0),
                y: clamped_i32(anchor_of(req.position, src.width, src.height).1),
                font_size: req.font_size,
            },
        ),
        OperationView::Resize(req) => match resized_dimensions(
            src.width,
            src.height,
            req.width,
            req.height,
            req.maintain_aspect,
        ) {
            None => (next, action) == refusal(ErrorKind::Parameter, no_dimension_message()),
            Some(d) => if resizable(src, d.0, d.1) {
                &&& saves(conf, format, new_id, OperationKind::Resize, next, action)
                &&& action->SaveImage_image.wf()
                &&& action->SaveImage_image.width == d.0
                &&& action->SaveImage_image.height == d.1
                &&& d.0 == src.width && d.1 == src.height ==> action->SaveImage_image == src
            } else {
                (next, action) == refusal(ErrorKind::Codec, resize_limit_message())
            },
        },
        OperationView::Compress(req) => if compressible(src) {
            &&& saves(conf, format, new_id, OperationKind::Compress, next, action)
            &&& action->SaveImage_image.wf()
            &&& action->SaveImage_image.width == src.width
            &&& action->SaveImage_image.height == src.height
        } else {
            (next, action) == refusal(ErrorKind::Codec, compress_limit_message())
        },
        OperationView::Crop(req) => if croppable(src, req.x, req.y, req.width, req.height) {
            &&& saves(conf, format, new_id, OperationKind::Crop, next, action)
            &&& is_crop_of(action->SaveImage_image, src, req.x, req.y, req.width, req.height)
        } else {
            (next, action) == refusal(ErrorKind::Codec, crop_limit_message())
        },
    }
}

/// Whether a step reports bytes that the image library does not decode.
pub open spec fn decode_refused(next: ProgressView, action: ActionView) -> bool {
    &&& next == ProgressView::Finished
    &&& action matches ActionView::Respond(ReplyView::Failed(e))
    &&& is_decode_failure(e)
}

/// Whether a step may follow the bytes of a transformation's source:
/// either they do not decode, or the step is what the operation makes of
/// some decoded image. Which of the two, and which image, is the image
/// library's to say.
pub open spec fn transformed(
    conf: ConfigView,
    format: ImageFormat,
    op: OperationView,
    new_id: Seq<char>,
    next: ProgressView,
    action: ActionView,
) -> bool {
    ||| decode_refused(next, action)
    ||| exists|src: ImageView|
        src.wf() && #[trigger] applied(conf, format, op, new_id, src, next, action)
}

/// Ends a request with an error.
pub fn build_err_response(kind: ErrorKind, msg: &str) -> (r: (Progress, Action))
    ensures
        (r.0@, r.1@) == refusal(kind, msg@),
{
    (Progress::Finished, Action::Respond(Reply::Failed(ServiceError::new(kind, msg))))
}

/// Ends a request with the given error.
fn refuse(e: ServiceError) -> (r: (Progress, Action))
    ensures
        (r.0@, r.1@) == refusal(e@.kind, e@.message),
{
    (Progress::Finished, Action::Respond(Reply::Failed(e)))
}

/// Stores an upload under the identifier `file_id`: detects the format and
/// hands the bytes out for writing. The record follows once the bytes are
/// written. The size must be one that a record can hold.
pub fn write_file(state: &AppState, image_type: String, file_data: Vec<u8>, file_id: String) -> (r:
    (Progress, Action))
    requires
        file_data@.len() <= u32::MAX,
    ensures
        (r.0@, r.1@) == store_step(state@, image_type@, file_data@, file_id@),
{
    let format = detect_image_format(image_type);
    let path = asset_path(state.conf().file_path.as_str(), file_id.as_str(), format);
    let size = file_data.len() as u32;
    (Progress::StoringUpload { id: file_id, format, size }, Action::WriteFile { path, data: file_data })
}

/// Opens an upload. An upload without a file name or without bytes is
/// refused as the client's error, and so is one over the configured
/// limit; nothing is written for them. Any other is stored under
/// `file_id`, whatever its declared content type.
pub fn upload_image(
    state: &AppState,
    file_name: &str,
    content_type: String,
    file_data: Vec<u8>,
    file_id: String,
) -> (r: (Progress, Action))
    ensures
        (r.0@, r.1@) == upload_step(state@, file_name@, content_type@, file_data@, file_id@),
{
    if file_name.is_empty() || file_data.len() == 0 {
        build_err_response(ErrorKind::Parameter, "Missing file or filename")
    } else if file_data.len() as u64 > state.conf().max_file_size || file_data.len() as u64
        > u32::MAX as u64 {
        build_err_response(ErrorKind::Parameter, "File too large")
    } else {
        write_file(state, content_type, file_data, file_id)
    }
}

/// Ends an upload whose body could not be read: the client's error.
pub fn unreadable_upload() -> (r: (Progress, Action))
    ensures
        (r.0@, r.1@) == refusal(ErrorKind::Parameter, "Failed to read file data"@),
{
    build_err_response(ErrorKind::Parameter, "Failed to read file data")
}

/// Opens a retrieval: asks for the asset's record, from which alone the
/// format, and with it the path of the bytes, is taken.
pub fn get_image(state: &AppState, img_id: String) -> (r: (Progress, Action))
    ensures
        (r.0@, r.1@) == get_step(state@, img_id@),
{
    let path = meta_path(state.conf().meta_path.as_str(), img_id.as_str());
    (Progress::ResolvingFormat { id: img_id }, Action::ReadMeta { path })
}

/// Opens a transformation of the asset `img_id` whose result, if any,
/// will be the asset `new_id`.
fn transform(state: &AppState, img_id: String, op: Operation, new_id: String) -> (r: (
    Progress,
    Action,
))
    ensures
        (r.0@, r.1@) == transform_step(state@, img_id@, op@, new_id@),
{
    let refused = match &op {
        Operation::Resize(req) => req.width.is_none() && req.height.is_none(),
        _ => false,
    };
    if refused {
        build_err_response(
            ErrorKind::Parameter,
            "At least one of width or height must be specified",
        )
    } else {
        let path = meta_path(state.conf().meta_path.as_str(), img_id.as_str());
        (Progress::LocatingSource { id: img_id, op, new_id }, Action::ReadMeta { path })
    }
}

/// Opens a watermark request.
pub fn watermark_image(state: &AppState, img_id: String, req: WatermarkRequest, new_id: String) -> (r:
    (Progress, Action))
    ensures
        (r.0@, r.1@) == transform_step(state@, img_id@, OperationView::Watermark(req@), new_id@),
{
    transform(state, img_id, Operation::Watermark(req), new_id)
}

/// Opens a resize request. One that names neither a width nor a height
/// is refused as the client's error before anything is read or written.
pub fn resize_img(state: &AppState, img_id: String, req: ResizeImageRequest, new_id: String) -> (r: (
    Progress,
    Action,
))
    ensures
        (r.0@, r.1@) == transform_step(state@, img_id@, OperationView::Resize(req), new_id@),
{
    transform(state, img_id, Operation::Resize(req), new_id)
}

/// Opens a compression request.
pub fn compress_image(
    state: &AppState,
    img_id: String,
    req: CompressImageRequest,
    new_id: String,
) -> (r: (Progress, Action))
    ensures
        (r.0@, r.1@) == transform_step(state@, img_id@, OperationView::Compress(req), new_id@),
{
    transform(state, img_id, Operation::Compress(req), new_id)
}

/// Opens a crop request.
pub fn crop_image(state: &AppState, img_id: String, req: CorpImageRequest, new_id: String) -> (r: (
    Progress,
    Action,
))
    ensures
        (r.0@, r.1@) == transform_step(state@, img_id@, OperationView::Crop(req), new_id@),
{
    transform(state, img_id, Operation::Crop(req), new_id)
}

/// Opens a request, with `fresh` as the identifier of the asset that it
/// may create.
pub fn begin_with(state: &AppState, request: Request, fresh: String) -> (r: (Progress, Action))
    ensures
        (r.0@, r.1@) == begin(state@, request@, fresh@),
{
    match request {
        Request::Upload { file_name, content_type, data } => upload_image(
            state,
            file_name.as_str(),
            content_type,
            data,
            fresh,
        ),
        Request::Get { img_id } => get_image(state, img_id),
        Request::Watermark { img_id, req } => watermark_image(state, img_id, req, fresh),
        Request::Resize { img_id, req } => resize_img(state, img_id, req, fresh),
        Request::Compress { img_id, req } => compress_image(state, img_id, req, fresh),
        Request::Crop { img_id, req } => crop_image(state, img_id, req, fresh),
    }
}

/// Opens a request. The asset that it may create gets a new random
/// identifier.
pub fn serve(state: &AppState, request: Request) -> (r: (Progress, Action))
    ensures
        exists|fresh: Seq<char>|
            is_uuid_text(fresh) && #[trigger] begin(state@, request@, fresh) == (r.0@, r.1@),
{
    let fresh = random_uuid_text();
    let ghost id = fresh@;
    let r = begin_with(state, request, fresh);
    assert(begin(state@, request@, id) == (r.0@, r.1@));
    r
}

/// Hands a derived image out for saving as the asset `new_id`, in the
/// format of its source.
pub fn save_derived(
    state: &AppState,
    format: ImageFormat,
    new_id: String,
    kind: OperationKind,
    image: Image,
) -> (r: (Progress, Action))
    ensures
        r.0@ == (ProgressView::SavingDerived { format, new_id: new_id@, kind }),
        r.1@ == (ActionView::SaveImage {
            path: asset_path_of(state@.file_path, new_id@, format),
            image: image@,
        }),
{
    let path = asset_path(state.conf().file_path.as_str(), new_id.as_str(), format);
    (Progress::SavingDerived { format, new_id, kind }, Action::SaveImage { path, image })
}

/// Hands an image out for a watermark to be drawn: the text as given, at
/// the anchor of the named position, held within what the drawing takes.
pub fn add_watermark_to_image(image: Image, text: String, position: &str, font_size: u32) -> (action:
    Action)
    ensures
        action@ == (ActionView::DrawText {
            image: image@,
            text: text@,
            x: clamped_i32(anchor_of(position@, image@.width, image@.height).0),
            y: clamped_i32(anchor_of(position@, image@.width, image@.height).1),
            font_size,
        }),
{
    let at = watermark_anchor(position, image.width(), image.height());
    Action::DrawText { image, text, x: clamp_i32(at.0), y: clamp_i32(at.1), font_size }
}

/// Applies an operation to the decoded source; see [`applied`].
pub fn apply_operation(
    state: &AppState,
    format: ImageFormat,
    op: Operation,
    new_id: String,
    image: Image,
) -> (r: (Progress, Action))
    ensures
        applied(state@, format, op@, new_id@, image@, r.0@, r.1@),
{
    match op {
        Operation::Watermark(req) => {
            let width = image.width();
            let height = image.height();
            let action = add_watermark_to_image(
                image,
                req.text,
                req.position.as_str(),
                req.font_size,
            );
            (Progress::Drawing { format, new_id, width, height }, action)
        },
        Operation::Resize(req) => match resize_image(
            &image,
            req.width,
            req.height,
            req.maintain_aspect,
        ) {
            Ok(out) => save_derived(state, format, new_id, OperationKind::Resize, out),
            Err(e) => refuse(e),
        },
        Operation::Compress(req) => match compress(&image, req.quality) {
            Ok(out) => save_derived(state, format, new_id, OperationKind::Compress, out),
            Err(e) => refuse(e),
        },
        Operation::Crop(req) => match crop(&image, req.x, req.y, req.width, req.height) {
            Ok(out) => save_derived(state, format, new_id, OperationKind::Crop, out),
            Err(e) => refuse(e),
        },
    }
}

/// The reply that announces the derived asset `new_img_id`.
fn announce(kind: OperationKind, new_img_id: String) -> (reply: Reply)
    ensures
        reply@ == derived_reply(kind, new_img_id@),
{
    match kind {
        OperationKind::Watermark => Reply::Watermarked(WatermarkResponse { new_img_id }),
        OperationKind::Resize => Reply::Resized(ResizeImageResponse { new_img_id }),
        OperationKind::Compress => Reply::Compressed(CompressImageResponse { new_img_id }),
        OperationKind::Crop => Reply::Cropped(CorpImageResponse { new_img_id }),
    }
}

/// Follows a stored record to the asset's bytes; see [`located`].
fn locate(
    state: &AppState,
    id: &str,
    meta: &ImgMetadata,
    waiting: Progress,
    unknown: ErrorKind,
) -> (r: (Progress, Action))
    ensures
        (r.0@, r.1@) == located(state@, id@, meta@.fmt, waiting@, unknown),
{
    let format = meta.format();
    if format.is_known() {
        let path = asset_path(state.conf().file_path.as_str(), id, format);
        (waiting, Action::ReadFile { path })
    } else {
        build_err_response(unknown, "unknown image format")
    }
}

/// Ends a request on an event that its state does not wait for.
fn unexpected() -> (r: (Progress, Action))
    ensures
        (r.0@, r.1@) == refusal(ErrorKind::Io, "Unexpected event"@),
{
    build_err_response(ErrorKind::Io, "Unexpected event")
}

/// Takes the next step of a request: from what it waits for and what the
/// host reports to what it waits for next and what the host is to do.
///
/// Every step but one is that of [`next_step`]. The step after the bytes
/// of a transformation's source decodes them and applies the operation;
/// it is one that [`transformed`] allows.
pub fn advance(state: &AppState, progress: Progress, event: Event) -> (r: (Progress, Action))
    ensures
        match (progress@, event@) {
            (ProgressView::LoadingSource { format, op, new_id }, EventView::FileLoaded(_)) => transformed(
                state@,
                format,
                op,
                new_id,
                r.0@,
                r.1@,
            ),
            _ => (r.0@, r.1@) == next_step(state@, progress@, event@),
        },
{
    match progress {
        Progress::StoringUpload { id, format, size } => match event {
            Event::FileWritten => {
                let path = meta_path(state.conf().meta_path.as_str(), id.as_str());
                let meta = ImgMetadata::describe(format, size);
                (Progress::RecordingUpload { id, format }, Action::WriteMeta { path, meta })
            },
            Event::FileCreateFailed => build_err_response(ErrorKind::Io, "Failed to create file"),
            Event::FileWriteFailed => build_err_response(ErrorKind::Io, "Failed to save file"),
            _ => unexpected(),
        },
        Progress::RecordingUpload { id, format } => match event {
            Event::MetaWritten => {
                let body = FileResponse { id, fmt: format.as_str().to_owned() };
                (Progress::Finished, Action::Respond(Reply::Uploaded(body)))
            },
            Event::MetaCreateFailed => build_err_response(
                ErrorKind::Io,
                "Failed to create metadata file",
            ),
            Event::MetaWriteFailed => build_err_response(ErrorKind::Io, "Failed to save metadata"),
            _ => unexpected(),
        },
        Progress::ResolvingFormat { id } => match event {
            Event::MetaLoaded(meta) => {
                let format = meta.format();
                locate(state, id.as_str(), &meta, Progress::Fetching { format }, ErrorKind::Format)
            },
            Event::MetaMissing => build_err_response(
                ErrorKind::NotFound,
                "Failed to read file meta",
            ),
            Event::MetaCorrupt => build_err_response(
                ErrorKind::CorruptData,
                "Failed to read file meta",
            ),
            _ => unexpected(),
        },
        Progress::Fetching { format } => match event {
            Event::FileLoaded(data) => {
                let content_type = format.content_type().to_owned();
                (Progress::Finished, Action::Respond(Reply::Image { content_type, data }))
            },
            Event::FileMissing => build_err_response(
                ErrorKind::NotFound,
                "Failed to read file data",
            ),
            _ => unexpected(),
        },
        Progress::LocatingSource { id, op, new_id } => match event {
            Event::MetaLoaded(meta) => {
                let format = meta.format();
                locate(
                    state,
                    id.as_str(),
                    &meta,
                    Progress::LoadingSource { format, op, new_id },
                    ErrorKind::Codec,
                )
            },
            Event::MetaMissing => build_err_response(
                ErrorKind::NotFound,
                "Failed to read file meta",
            ),
            Event::MetaCorrupt => build_err_response(
                ErrorKind::CorruptData,
                "Failed to read file meta",
            ),
            _ => unexpected(),
        },
        Progress::LoadingSource { format, op, new_id } => match event {
            Event::FileLoaded(data) => match read_image(data.as_slice()) {
                Ok(image) => {
                    let ghost src = image@;
                    let ghost op_view = op@;
                    let ghost id_view = new_id@;
                    let r = apply_operation(state, format, op, new_id, image);
                    assert(src.wf() && applied(state@, format, op_view, id_view, src, r.0@, r.1@));
                    r
                },
                Err(e) => {
                    let r = refuse(e);
                    assert(decode_refused(r.0@, r.1@));
                    r
                },
            },
            Event::FileMissing => build_err_response(ErrorKind::NotFound, "Failed to read image"),
            _ => unexpected(),
        },
        Progress::Drawing { format, new_id, width, height } => match event {
            Event::TextDrawn(image) => {
                if image.width() == width && image.height() == height {
                    save_derived(state, format, new_id, OperationKind::Watermark, image)
                } else {
                    build_err_response(
                        ErrorKind::Codec,
                        "Failed to draw text: the image changed size",
                    )
                }
            },
            Event::TextDrawFailed(detail) => {
                let message = joined("Failed to draw text: ", detail.as_str());
                refuse(ServiceError { kind: ErrorKind::Codec, message })
            },
            _ => unexpected(),
        },
        Progress::SavingDerived { format, new_id, kind } => match event {
            Event::ImageSaved(size) => {
                if size > u32::MAX as u64 {
                    build_err_response(ErrorKind::Io, "Failed to save metadata")
                } else {
                    let path = meta_path(state.conf().meta_path.as_str(), new_id.as_str());
                    let meta = ImgMetadata::describe(format, size as u32);
                    (Progress::RecordingDerived { new_id, kind }, Action::WriteMeta { path, meta })
                }
            },
            Event::ImageSaveFailed(detail) => {
                let message = joined("Failed to save image: ", detail.as_str());
                refuse(ServiceError { kind: ErrorKind::Codec, message })
            },
            _ => unexpected(),
        },
        Progress::RecordingDerived { new_id, kind } => match event {
            Event::MetaWritten => (Progress::Finished, Action::Respond(announce(kind, new_id))),
            Event::MetaCreateFailed => build_err_response(
                ErrorKind::Io,
                "Failed to create metadata file",
            ),
            Event::MetaWriteFailed => build_err_response(ErrorKind::Io, "Failed to save metadata"),
            _ => unexpected(),
        },
        Progress::Finished => unexpected(),
    }
}

} // verus!
