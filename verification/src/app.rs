//! The state machine behind the window: which messages change which part of
//! the state, and what outside work (file dialogs, reading and writing files,
//! showing an image) each message asks for.  Positions of the selection on the
//! screen are not part of it; a crop request carries the selection's top-left
//! corner in image pixels.

use crate::crop::{crop_and_encode, cropping, decode_file, file_decoding, image_decoding, opt_text, LoadedImage};
use crate::text::{ascii_lower_code, decimal, lemma_folds_to_small_letter, eq_ignore_ascii_case, push_decimal, str_eq_ignore_ascii_case};
use vstd::prelude::*;
use vstd::string::*;

verus! {

/// A decoded image on its way to the window, with the file it came from.
#[derive(Debug, Clone, PartialEq, Eq)]
pub struct ImageInfo {
    pub width: u32,
    pub height: u32,
    pub rgba_data: Vec<u8>,
    pub path: String,
}

/// What the status bar reports.
#[derive(Debug, Clone, PartialEq, Eq)]
pub enum Status {
    Idle,
    Loading,
    Loaded,
    Saving,
    Saved(String),
    Error(String),
}

/// What happened: a user action or the end of some outside work.
#[derive(Debug, PartialEq, Eq)]
pub enum Message {
    /// The open button was pressed.
    OpenFile,
    /// A file was chosen or dropped (`Some`), or the dialog was cancelled (`None`).
    FileSelected(Option<String>),
    /// Loading the chosen file ended.
    ImageLoaded(Result<ImageInfo, String>),
    /// The save button was pressed while the selection's top-left corner lay at
    /// pixel `(x, y)` of the image.
    CropAndSave { x: u32, y: u32 },
    /// Writing the cropped file ended.
    FileSaved(Result<String, String>),
    /// A dragged file entered (`true`) or left (`false`) the window.
    FileHovering(bool),
}

/// The outside work that a message asks for.
#[derive(Debug, Clone, PartialEq, Eq)]
pub enum Action {
    /// No outside work.
    Nothing,
    /// Ask for a PNG file to open; its answer comes back as `FileSelected`.
    PickFile,
    /// Read and load the file at this path; the outcome comes back as `ImageLoaded`.
    LoadFile(String),
    /// Show this image on the canvas with the selection centred, then read its
    /// file again for `App::reload_image`.
    ShowImage(ImageInfo),
    /// Ask where to save these PNG bytes and write them there; the outcome comes
    /// back as `FileSaved`.
    SaveFile(Vec<u8>),
}

/// A window event that the application listens to.
#[derive(Debug, Clone, PartialEq, Eq)]
pub enum WindowEvent {
    /// A file was dropped on the window; `extension` is the path's extension, where
    /// it has one that is valid UTF-8.
    FileDropped { path: String, extension: Option<String> },
    /// A dragged file entered the window.
    FileHovered,
    /// Dragged files left the window.
    FilesHoveredLeft,
    /// Any other event.
    Other,
}

/// The message that rejects a dropped file that is not a PNG file.
pub open spec fn png_only_message() -> Seq<char> {
    "PNG ファイルのみ対応しています"@
}

/// The message for a save dialog that was cancelled.
pub open spec fn cancelled_message() -> Seq<char> {
    "キャンセルされました"@
}

/// Whether a path extension names a PNG file: `png` in any case.
pub open spec fn is_png_extension(extension: Option<String>) -> bool {
    match extension {
        Some(e) => eq_ignore_ascii_case(e@, "png"@),
        None => false,
    }
}

/// The state of the window that the messages act on.
#[derive(Debug, Clone, PartialEq, Eq)]
pub struct App {
    pub status: Status,
    /// The image that a crop is taken from.
    pub image: Option<LoadedImage>,
    /// The size of the image last loaded.
    pub image_dimensions: Option<(u32, u32)>,
    /// Whether a dragged file is over the window.
    pub is_file_hovering: bool,
}

/// The text that the status bar shows for a status.
pub open spec fn status_text(status: Status) -> Seq<char> {
    match status {
        Status::Idle => "準備完了"@,
        Status::Loading => "読み込み中..."@,
        Status::Loaded => "画像を読み込みました。選択枠をドラッグして範囲を調整してください。"@,
        Status::Saving => "保存中..."@,
        Status::Saved(path) => "保存しました: "@ + path@,
        Status::Error(e) => e@,
    }
}

/// What `App::update` does with a crop request at `(x, y)` when `img` is the
/// image to crop: where the crop gives a PNG file, the status becomes `Saving`
/// and the file is handed on for saving; where it gives an error, the status
/// becomes that error and nothing is asked for.  Only the status changes.  The
/// file is handed on exactly when the corner lies inside the image.
pub open spec fn crop_request_effect(before: App, img: LoadedImage, x: u32, y: u32, after: App, action: Action) -> bool {
    &&& after == App { status: after.status, ..before }
    &&& (action is SaveFile <==> (x < img.width && y < img.height))
    &&& match cropping(img, x, y) {
        Ok(b) => after.status == Status::Saving && (match action {
            Action::SaveFile(png) => png@ == b,
            _ => false,
        }),
        Err(m) => action == Action::Nothing && (match after.status {
            Status::Error(e) => e@ == m,
            _ => false,
        }),
    }
}

impl App {
    /// The image to crop, if any, holds a full pixel buffer.
    pub open spec fn wf(&self) -> bool {
        self.image matches Some(img) ==> img.wf()
    }

    /// The state at start: idle, no image, nothing hovering.
    pub fn new() -> (app: App)
        ensures
            app.wf(),
            app.status == Status::Idle,
            app.image is None,
            app.image_dimensions is None,
            !app.is_file_hovering,
    {
        App { status: Status::Idle, image: None, image_dimensions: None, is_file_hovering: false }
    }

    /// The window title.
    pub fn title(&self) -> (res: String)
        ensures
            res@ == "PP252 - PNG Cropper"@,
    {
        String::from_str("PP252 - PNG Cropper")
    }

    /// Applies a message to the state and returns the outside work it asks for.
    pub fn update(&mut self, message: Message) -> (action: Action)
        requires
            old(self).wf(),
        ensures
            final(self).wf(),
            final(self).image == old(self).image,
            message is CropAndSave ==> final(self).image_dimensions == old(self).image_dimensions
                && final(self).is_file_hovering == old(self).is_file_hovering,
            match message {
                Message::OpenFile => *final(self) == App { status: Status::Loading, ..*old(self) }
                    && action == Action::PickFile,
                Message::FileSelected(Some(path)) => *final(self) == App {
                    status: Status::Loading,
                    is_file_hovering: false,
                    ..*old(self)
                } && action == Action::LoadFile(path),
                Message::FileSelected(None) => *final(self) == App {
                    status: Status::Idle,
                    is_file_hovering: false,
                    ..*old(self)
                } && action == Action::Nothing,
                Message::ImageLoaded(Ok(info)) => *final(self) == App {
                    status: Status::Loaded,
                    image_dimensions: Some((info.width, info.height)),
                    ..*old(self)
                } && action == Action::ShowImage(info),
                Message::ImageLoaded(Err(e)) => *final(self) == App {
                    status: Status::Error(e),
                    ..*old(self)
                } && action == Action::Nothing,
                Message::CropAndSave { x, y } => match old(self).image {
                    None => *final(self) == *old(self) && action == Action::Nothing,
                    Some(img) => crop_request_effect(*old(self), img, x, y, *final(self), action),
                },
                Message::FileSaved(Ok(path)) => *final(self) == App {
                    status: Status::Saved(path),
                    ..*old(self)
                } && action == Action::Nothing,
                Message::FileSaved(Err(e)) => *final(self) == App {
                    status: Status::Error(e),
                    ..*old(self)
                } && action == Action::Nothing,
                Message::FileHovering(hovering) => *final(self) == App {
                    is_file_hovering: hovering,
                    ..*old(self)
                } && action == Action::Nothing,
            },
    {
        match message {
            Message::OpenFile => {
                self.status = Status::Loading;
                Action::PickFile
            },
            Message::FileSelected(path) => {
                self.is_file_hovering = false;
                match path {
                    Some(p) => {
                        self.status = Status::Loading;
                        Action::LoadFile(p)
                    },
                    None => {
                        self.status = Status::Idle;
                        Action::Nothing
                    },
                }
            },
            Message::ImageLoaded(result) => {
                match result {
                    Ok(info) => {
                        self.image_dimensions = Some((info.width, info.height));
                        self.status = Status::Loaded;
                        Action::ShowImage(info)
                    },
                    Err(e) => {
                        self.status = Status::Error(e);
                        Action::Nothing
                    },
                }
            },
            Message::CropAndSave { x, y } => {
                let outcome = match &self.image {
                    Some(img) => Some(crop_and_encode(img, x, y)),
                    None => None,
                };
                match outcome {
                    Some(Ok(png_bytes)) => {
                        self.status = Status::Saving;
                        Action::SaveFile(png_bytes)
                    },
                    Some(Err(e)) => {
                        self.status = Status::Error(e);
                        Action::Nothing
                    },
                    None => Action::Nothing,
                }
            },
            Message::FileSaved(result) => {
                match result {
                    Ok(path) => self.status = Status::Saved(path),
                    Err(e) => self.status = Status::Error(e),
                }
                Action::Nothing
            },
            Message::FileHovering(hovering) => {
                self.is_file_hovering = hovering;
                Action::Nothing
            },
        }
    }

    /// Takes the image to crop from the file read again after `ShowImage`:
    /// `file` is its content, or `None` where it could not be read, and
    /// `extension` its path's extension.  A file that decodes replaces the image;
    /// otherwise the image stays as it was.  Nothing else changes.
    pub fn reload_image(&mut self, file: Option<&[u8]>, extension: Option<&str>)
        requires
            old(self).wf(),
        ensures
            final(self).wf(),
            final(self).status == old(self).status,
            final(self).image_dimensions == old(self).image_dimensions,
            final(self).is_file_hovering == old(self).is_file_hovering,
            match file {
                None => final(self).image == old(self).image,
                Some(bytes) => match file_decoding(bytes@, opt_text(extension)) {
                    Err(_) => final(self).image == old(self).image,
                    Ok(d) => final(self).image matches Some(img) && d == (
                        img.width,
                        img.height,
                        img.rgba_data@,
                    ),
                },
            },
            match (file, extension) {
                (Some(bytes), Some(e)) => e@.len() > 0 ==> (match image_decoding(bytes@, e@) {
                    Some(Ok(d)) => final(self).image matches Some(img) && img.width == d.0
                        && img.height == d.1 && img.rgba_data@ == d.2,
                    _ => true,
                }),
                _ => true,
            },
    {
        if let Some(bytes) = file {
            let decoded = decode_file(bytes, extension);
            self.set_reloaded_image(decoded);
        }
    }

    /// What `reload_image` does with what the decoder gave back: a decoded image
    /// becomes the image to crop; after a decoder error the image stays as it was.
    pub fn set_reloaded_image(&mut self, decoded: Result<LoadedImage, String>)
        requires
            old(self).wf(),
            decoded matches Ok(img) ==> img.wf(),
        ensures
            final(self).wf(),
            match decoded {
                Ok(img) => *final(self) == App { image: Some(img), ..*old(self) },
                Err(_) => *final(self) == *old(self),
            },
    {
        if let Ok(img) = decoded {
            self.image = Some(img);
        }
    }

    /// The status bar's text, and whether it reports an error.
    pub fn status_line(&self) -> (res: (String, bool))
        ensures
            res.0@ == status_text(self.status),
            res.1 == (self.status is Error),
    {
        match &self.status {
            Status::Idle => (String::from_str("準備完了"), false),
            Status::Loading => (String::from_str("読み込み中..."), false),
            Status::Loaded => (
                String::from_str("画像を読み込みました。選択枠をドラッグして範囲を調整してください。"),
                false,
            ),
            Status::Saving => (String::from_str("保存中..."), false),
            Status::Saved(path) => {
                let mut s = String::from_str("保存しました: ");
                s.append(path.as_str());
                (s, false)
            },
            Status::Error(e) => (e.clone(), true),
        }
    }

    /// The message that a window event gives: a dropped PNG file is opened, any
    /// other dropped file is refused with an error, and dragging over the window
    /// switches the hover flag; other events give none.
    pub fn window_event_message(event: WindowEvent) -> (res: Option<Message>)
        ensures
            match event {
                WindowEvent::FileDropped { path, extension } => if is_png_extension(extension) {
                    res == Some(Message::FileSelected(Some(path)))
                } else {
                    res matches Some(Message::ImageLoaded(Err(m))) && m@ == png_only_message()
                },
                WindowEvent::FileHovered => res == Some(Message::FileHovering(true)),
                WindowEvent::FilesHoveredLeft => res == Some(Message::FileHovering(false)),
                WindowEvent::Other => res is None,
            },
    {
        match event {
            WindowEvent::FileDropped { path, extension } => {
                let is_png = match &extension {
                    Some(e) => str_eq_ignore_ascii_case(e.as_str(), "png"),
                    None => false,
                };
                if is_png {
                    Some(Message::FileSelected(Some(path)))
                } else {
                    Some(Message::ImageLoaded(Err(String::from_str("PNG ファイルのみ対応しています"))))
                }
            },
            WindowEvent::FileHovered => Some(Message::FileHovering(true)),
            WindowEvent::FilesHoveredLeft => Some(Message::FileHovering(false)),
            WindowEvent::Other => None,
        }
    }

    /// The message that ends a save: `written` is `None` where the save dialog
    /// was cancelled, else the path written to or the write error.
    pub fn file_saved_message(written: Option<Result<String, String>>) -> (res: Message)
        ensures
            match written {
                Some(r) => res == Message::FileSaved(r),
                None => res matches Message::FileSaved(Err(m)) && m@ == cancelled_message(),
            },
    {
        match written {
            Some(r) => Message::FileSaved(r),
            None => Message::FileSaved(Err(String::from_str("キャンセルされました"))),
        }
    }

    /// The size line of the info row, once an image has been loaded:
    /// `画像サイズ: {width} x {height}`.
    pub fn size_label(&self) -> (res: Option<String>)
        ensures
            match self.image_dimensions {
                Some((w, h)) => res matches Some(s) && s@ == "画像サイズ: "@ + decimal(w as nat) + " x "@
                    + decimal(h as nat),
                None => res is None,
            },
    {
        match self.image_dimensions {
            Some((w, h)) => {
                let mut s = String::from_str("画像サイズ: ");
                push_decimal(&mut s, w);
                s.append(" x ");
                push_decimal(&mut s, h);
                Some(s)
            },
            None => None,
        }
    }

    /// The selection line of the info row for a selection whose top-left corner
    /// lies at pixel `(x, y)`: `選択位置: ({x}, {y})`.
    pub fn selection_label(x: u32, y: u32) -> (res: String)
        ensures
            res@ == "選択位置: ("@ + decimal(x as nat) + ", "@ + decimal(y as nat) + ")"@,
    {
        let mut s = String::from_str("選択位置: (");
        push_decimal(&mut s, x);
        s.append(", ");
        push_decimal(&mut s, y);
        s.append(")");
        s
    }

    /// Whether the save button takes presses: only with an image to crop.
    pub fn can_save(&self) -> (res: bool)
        ensures
            res == self.image is Some,
    {
        self.image.is_some()
    }
}



/// A crop request changes only the status: the image to crop, its size and the
/// hover flag stay, so the same image can be cropped and saved again.
pub proof fn lemma_crop_request_keeps_image(before: App, img: LoadedImage, x: u32, y: u32, after: App, action: Action)
    requires
        crop_request_effect(before, img, x, y, after, action),
    ensures
        after.image == before.image,
        after.image_dimensions == before.image_dimensions,
        after.is_file_hovering == before.is_file_hovering,
{
}

/// A dropped file is opened exactly when its extension is the three letters
/// `p`, `n`, `g`, each in either case.
pub proof fn lemma_png_extension_letters(e: String)
    ensures
        is_png_extension(Some(e)) <==> (e@.len() == 3 && (e@[0] == 'p' || e@[0] == 'P') && (e@[1]
            == 'n' || e@[1] == 'N') && (e@[2] == 'g' || e@[2] == 'G')),
{
    reveal_strlit("png");
    let p = "png"@;
    assert(p.len() == 3 && p[0] == 'p' && p[1] == 'n' && p[2] == 'g');
    lemma_folds_to_small_letter(e@[0], 'p');
    lemma_folds_to_small_letter(e@[1], 'n');
    lemma_folds_to_small_letter(e@[2], 'g');
    if e@.len() == 3 && (e@[0] == 'p' || e@[0] == 'P') && (e@[1] == 'n' || e@[1] == 'N') && (e@[2]
        == 'g' || e@[2] == 'G') {
        assert forall|i: int| 0 <= i < e@.len() implies ascii_lower_code(#[trigger] e@[i])
            == ascii_lower_code(p[i]) by {
            if i == 0 {
            } else if i == 1 {
            } else {
            }
        }
    }
}

} // verus!
