//! The vocabulary between the service and its host. The service decides;
//! the host reads and writes files, draws text and sends the reply. One
//! request is a sequence of steps: the service names an [`Action`], the
//! host performs it and reports the [`Event`], until the action is a
//! [`Reply`].

use crate::error::{status_of, ServiceError, ServiceErrorView};
use crate::format::ImageFormat;
use crate::picture::{Image, ImageView};
use crate::store::{ImgMetadata, MetaView};
use vstd::prelude::*;

verus! {

/// The body of the response to an upload.
#[derive(Debug)]
pub struct FileResponse {
    pub id: String,
    pub fmt: String,
}

/// The parameters of a watermark.
#[derive(Debug)]
pub struct WatermarkRequest {
    pub text: String,
    pub position: String,
    pub font_size: u32,
}

/// The mathematical value of a [`WatermarkRequest`].
pub struct WatermarkView {
    pub text: Seq<char>,
    pub position: Seq<char>,
    pub font_size: u32,
}

impl View for WatermarkRequest {
    type V = WatermarkView;

    open spec fn view(&self) -> WatermarkView {
        WatermarkView { text: self.text@, position: self.position@, font_size: self.font_size }
    }
}

/// The body of the response to a watermark.
#[derive(Debug)]
pub struct WatermarkResponse {
    pub new_img_id: String,
}

/// The parameters of a resize. At least one dimension must be given.
#[derive(Debug, Clone, Copy, PartialEq, Eq, Structural)]
pub struct ResizeImageRequest {
    pub width: Option<u32>,
    pub height: Option<u32>,
    pub maintain_aspect: bool,
}

/// The body of the response to a resize.
#[derive(Debug)]
pub struct ResizeImageResponse {
    pub new_img_id: String,
}

/// The parameters of a compression: the quality, from 0 to 100.
#[derive(Debug, Clone, Copy, PartialEq, Eq, Structural)]
pub struct CompressImageRequest {
    pub quality: u8,
}

/// The body of the response to a compression.
#[derive(Debug)]
pub struct CompressImageResponse {
    pub new_img_id: String,
}

/// The parameters of a crop: the rectangle to cut.
#[derive(Debug, Clone, Copy, PartialEq, Eq, Structural)]
pub struct CorpImageRequest {
    pub x: u32,
    pub y: u32,
    pub width: u32,
    pub height: u32,
}

/// The body of the response to a crop.
#[derive(Debug)]
pub struct CorpImageResponse {
    pub new_img_id: String,
}

/// A transformation with its parameters.
#[derive(Debug)]
pub enum Operation {
    Watermark(WatermarkRequest),
    Resize(ResizeImageRequest),
    Compress(CompressImageRequest),
    Crop(CorpImageRequest),
}

/// The mathematical value of an [`Operation`].
pub enum OperationView {
    Watermark(WatermarkView),
    Resize(ResizeImageRequest),
    Compress(CompressImageRequest),
    Crop(CorpImageRequest),
}

impl View for Operation {
    type V = OperationView;

    open spec fn view(&self) -> OperationView {
        match self {
            Operation::Watermark(req) => OperationView::Watermark(req@),
            Operation::Resize(req) => OperationView::Resize(*req),
            Operation::Compress(req) => OperationView::Compress(*req),
            Operation::Crop(req) => OperationView::Crop(*req),
        }
    }
}

/// Which transformation a derived asset comes from; it decides the shape
/// of the reply.
#[derive(Debug, Clone, Copy, PartialEq, Eq, Structural)]
pub enum OperationKind {
    Watermark,
    Resize,
    Compress,
    Crop,
}

/// What is sent back to the client, and with it the end of a request.
#[derive(Debug)]
pub enum Reply {
    /// An upload was stored. Status 201.
    Uploaded(FileResponse),
    /// The bytes of an asset, with their content type. Status 200.
    Image { content_type: String, data: Vec<u8> },
    /// A watermarked copy was stored. Status 200.
    Watermarked(WatermarkResponse),
    /// A resized copy was stored. Status 200.
    Resized(ResizeImageResponse),
    /// A compressed copy was stored. Status 200.
    Compressed(CompressImageResponse),
    /// A cropped copy was stored. Status 200.
    Cropped(CorpImageResponse),
    /// The request failed. Status by the error's kind.
    Failed(ServiceError),
}

/// The mathematical value of a [`Reply`].
pub enum ReplyView {
    Uploaded { id: Seq<char>, fmt: Seq<char> },
    Image { content_type: Seq<char>, data: Seq<u8> },
    Watermarked { new_img_id: Seq<char> },
    Resized { new_img_id: Seq<char> },
    Compressed { new_img_id: Seq<char> },
    Cropped { new_img_id: Seq<char> },
    Failed(ServiceErrorView),
}

impl View for Reply {
    type V = ReplyView;

    open spec fn view(&self) -> ReplyView {
        match self {
            Reply::Uploaded(body) => ReplyView::Uploaded { id: body.id@, fmt: body.fmt@ },
            Reply::Image { content_type, data } => ReplyView::Image {
                content_type: content_type@,
                data: data@,
            },
            Reply::Watermarked(body) => ReplyView::Watermarked { new_img_id: body.new_img_id@ },
            Reply::Resized(body) => ReplyView::Resized { new_img_id: body.new_img_id@ },
            Reply::Compressed(body) => ReplyView::Compressed { new_img_id: body.new_img_id@ },
            Reply::Cropped(body) => ReplyView::Cropped { new_img_id: body.new_img_id@ },
            Reply::Failed(e) => ReplyView::Failed(e@),
        }
    }
}

/// Status of a reply that carries what was asked for.
pub const STATUS_OK: u16 = 200;

/// Status of the reply to an upload that was stored.
pub const STATUS_CREATED: u16 = 201;

/// The response status of a reply: created for an upload, the status of
/// the error's kind for a failure, and plain success for all others.
pub open spec fn reply_status(reply: ReplyView) -> u16 {
    match reply {
        ReplyView::Uploaded { .. } => STATUS_CREATED,
        ReplyView::Failed(e) => status_of(e.kind),
        _ => STATUS_OK,
    }
}

impl Reply {
    /// The response status with which this reply is sent.
    pub fn status(&self) -> (code: u16)
        ensures
            code == reply_status(self@),
    {
        match self {
            Reply::Uploaded(_) => STATUS_CREATED,
            Reply::Failed(e) => e.status(),
            _ => STATUS_OK,
        }
    }
}

/// What the service asks of its host.
#[derive(Debug)]
pub enum Action {
    /// Read and parse the metadata record at `path`.
    ReadMeta { path: String },
    /// Read the bytes at `path`.
    ReadFile { path: String },
    /// Create the file at `path` and write `data` to it.
    WriteFile { path: String, data: Vec<u8> },
    /// Draw `text` onto `image`, starting at `(x, y)`.
    DrawText { image: Image, text: String, x: i32, y: i32, font_size: u32 },
    /// Encode `image` by the extension of `path` and write it there.
    SaveImage { path: String, image: Image },
    /// Create the file at `path` and write the record `meta` to it.
    WriteMeta { path: String, meta: ImgMetadata },
    /// Send the reply. The request is over.
    Respond(Reply),
}

/// The mathematical value of an [`Action`].
pub enum ActionView {
    ReadMeta { path: Seq<char> },
    ReadFile { path: Seq<char> },
    WriteFile { path: Seq<char>, data: Seq<u8> },
    DrawText { image: ImageView, text: Seq<char>, x: i32, y: i32, font_size: u32 },
    SaveImage { path: Seq<char>, image: ImageView },
    WriteMeta { path: Seq<char>, meta: MetaView },
    Respond(ReplyView),
}

impl View for Action {
    type V = ActionView;

    open spec fn view(&self) -> ActionView {
        match self {
            Action::ReadMeta { path } => ActionView::ReadMeta { path: path@ },
            Action::ReadFile { path } => ActionView::ReadFile { path: path@ },
            Action::WriteFile { path, data } => ActionView::WriteFile { path: path@, data: data@ },
            Action::DrawText { image, text, x, y, font_size } => ActionView::DrawText {
                image: image@,
                text: text@,
                x: *x,
                y: *y,
                font_size: *font_size,
            },
            Action::SaveImage { path, image } => ActionView::SaveImage {
                path: path@,
                image: image@,
            },
            Action::WriteMeta { path, meta } => ActionView::WriteMeta { path: path@, meta: meta@ },
            Action::Respond(reply) => ActionView::Respond(reply@),
        }
    }
}

/// Whether an action changes what is stored.
pub open spec fn writes(action: ActionView) -> bool {
    action is WriteFile || action is SaveImage || action is WriteMeta
}

/// What the host reports after performing an action.
#[derive(Debug)]
pub enum Event {
    /// The record was read and parsed.
    MetaLoaded(ImgMetadata),
    /// There is no record, or it cannot be read.
    MetaMissing,
    /// There is a record, but it cannot be parsed.
    MetaCorrupt,
    /// The bytes were read.
    FileLoaded(Vec<u8>),
    /// There are no bytes, or they cannot be read.
    FileMissing,
    /// The file was created and written.
    FileWritten,
    /// The file could not be created.
    FileCreateFailed,
    /// The file was created but could not be written.
    FileWriteFailed,
    /// The text was drawn; this is the image with it.
    TextDrawn(Image),
    /// The text could not be drawn, for the reason given.
    TextDrawFailed(String),
    /// The image was encoded and written; the file has this many bytes.
    ImageSaved(u64),
    /// The image could not be encoded or written, for the reason given.
    ImageSaveFailed(String),
    /// The record was created and written.
    MetaWritten,
    /// The record's file could not be created.
    MetaCreateFailed,
    /// The record's file was created but could not be written.
    MetaWriteFailed,
}

/// The mathematical value of an [`Event`].
pub enum EventView {
    MetaLoaded(MetaView),
    MetaMissing,
    MetaCorrupt,
    FileLoaded(Seq<u8>),
    FileMissing,
    FileWritten,
    FileCreateFailed,
    FileWriteFailed,
    TextDrawn(ImageView),
    TextDrawFailed(Seq<char>),
    ImageSaved(u64),
    ImageSaveFailed(Seq<char>),
    MetaWritten,
    MetaCreateFailed,
    MetaWriteFailed,
}

impl View for Event {
    type V = EventView;

    open spec fn view(&self) -> EventView {
        match self {
            Event::MetaLoaded(meta) => EventView::MetaLoaded(meta@),
            Event::MetaMissing => EventView::MetaMissing,
            Event::MetaCorrupt => EventView::MetaCorrupt,
            Event::FileLoaded(data) => EventView::FileLoaded(data@),
            Event::FileMissing => EventView::FileMissing,
            Event::FileWritten => EventView::FileWritten,
            Event::FileCreateFailed => EventView::FileCreateFailed,
            Event::FileWriteFailed => EventView::FileWriteFailed,
            Event::TextDrawn(image) => EventView::TextDrawn(image@),
            Event::TextDrawFailed(detail) => EventView::TextDrawFailed(detail@),
            Event::ImageSaved(size) => EventView::ImageSaved(*size),
            Event::ImageSaveFailed(detail) => EventView::ImageSaveFailed(detail@),
            Event::MetaWritten => EventView::MetaWritten,
            Event::MetaCreateFailed => EventView::MetaCreateFailed,
            Event::MetaWriteFailed => EventView::MetaWriteFailed,
        }
    }
}

/// How far a request has come: what the service waits for.
#[derive(Debug)]
pub enum Progress {
    /// An upload waits for its bytes to be written.
    StoringUpload { id: String, format: ImageFormat, size: u32 },
    /// An upload waits for its record to be written.
    RecordingUpload { id: String, format: ImageFormat },
    /// A retrieval waits for the asset's record.
    ResolvingFormat { id: String },
    /// A retrieval waits for the asset's bytes.
    Fetching { format: ImageFormat },
    /// A transformation waits for the source's record.
    LocatingSource { id: String, op: Operation, new_id: String },
    /// A transformation waits for the source's bytes.
    LoadingSource { format: ImageFormat, op: Operation, new_id: String },
    /// A watermark waits for the text to be drawn onto an image of the
    /// given dimensions.
    Drawing { format: ImageFormat, new_id: String, width: u32, height: u32 },
    /// A transformation waits for the derived image to be saved.
    SavingDerived { format: ImageFormat, new_id: String, kind: OperationKind },
    /// A transformation waits for the derived asset's record to be written.
    RecordingDerived { new_id: String, kind: OperationKind },
    /// The reply was given.
    Finished,
}

/// The mathematical value of a [`Progress`].
pub enum ProgressView {
    StoringUpload { id: Seq<char>, format: ImageFormat, size: u32 },
    RecordingUpload { id: Seq<char>, format: ImageFormat },
    ResolvingFormat { id: Seq<char> },
    Fetching { format: ImageFormat },
    LocatingSource { id: Seq<char>, op: OperationView, new_id: Seq<char> },
    LoadingSource { format: ImageFormat, op: OperationView, new_id: Seq<char> },
    Drawing { format: ImageFormat, new_id: Seq<char>, width: u32, height: u32 },
    SavingDerived { format: ImageFormat, new_id: Seq<char>, kind: OperationKind },
    RecordingDerived { new_id: Seq<char>, kind: OperationKind },
    Finished,
}

impl View for Progress {
    type V = ProgressView;

    open spec fn view(&self) -> ProgressView {
        match self {
            Progress::StoringUpload { id, format, size } => ProgressView::StoringUpload {
                id: id@,
                format: *format,
                size: *size,
            },
            Progress::RecordingUpload { id, format } => ProgressView::RecordingUpload {
                id: id@,
                format: *format,
            },
            Progress::ResolvingFormat { id } => ProgressView::ResolvingFormat { id: id@ },
            Progress::Fetching { format } => ProgressView::Fetching { format: *format },
            Progress::LocatingSource { id, op, new_id } => ProgressView::LocatingSource {
                id: id@,
                op: op@,
                new_id: new_id@,
            },
            Progress::LoadingSource { format, op, new_id } => ProgressView::LoadingSource {
                format: *format,
                op: op@,
                new_id: new_id@,
            },
            Progress::Drawing { format, new_id, width, height } => ProgressView::Drawing {
                format: *format,
                new_id: new_id@,
                width: *width,
                height: *height,
            },
            Progress::SavingDerived { format, new_id, kind } => ProgressView::SavingDerived {
                format: *format,
                new_id: new_id@,
                kind: *kind,
            },
            Progress::RecordingDerived { new_id, kind } => ProgressView::RecordingDerived {
                new_id: new_id@,
                kind: *kind,
            },
            Progress::Finished => ProgressView::Finished,
        }
    }
}

/// A request as it reaches the service.
#[derive(Debug)]
#[allow(inconsistent_fields)]
pub enum Request {
    Upload { file_name: String, content_type: String, data: Vec<u8> },
    Get { img_id: String },
    Watermark { img_id: String, req: WatermarkRequest },
    Resize { img_id: String, req: ResizeImageRequest },
    Compress { img_id: String, req: CompressImageRequest },
    Crop { img_id: String, req: CorpImageRequest },
}

/// The mathematical value of a [`Request`].
#[allow(inconsistent_fields)]
pub enum RequestView {
    Upload { file_name: Seq<char>, content_type: Seq<char>, data: Seq<u8> },
    Get { img_id: Seq<char> },
    Watermark { img_id: Seq<char>, req: WatermarkView },
    Resize { img_id: Seq<char>, req: ResizeImageRequest },
    Compress { img_id: Seq<char>, req: CompressImageRequest },
    Crop { img_id: Seq<char>, req: CorpImageRequest },
}

impl View for Request {
    type V = RequestView;

    open spec fn view(&self) -> RequestView {
        match self {
            Request::Upload { file_name, content_type, data } => RequestView::Upload {
                file_name: file_name@,
                content_type: content_type@,
                data: data@,
            },
            Request::Get { img_id } => RequestView::Get { img_id: img_id@ },
            Request::Watermark { img_id, req } => RequestView::Watermark {
                img_id: img_id@,
                req: req@,
            },
            Request::Resize { img_id, req } => RequestView::Resize { img_id: img_id@, req: *req },
            Request::Compress { img_id, req } => RequestView::Compress {
                img_id: img_id@,
                req: *req,
            },
            Request::Crop { img_id, req } => RequestView::Crop { img_id: img_id@, req: *req },
        }
    }
}

} // verus!
