//! What the browser asks of the outside world, and what comes back.

use crate::entry::{views, Entry, EntryModel};
use vstd::prelude::*;

verus! {

/// Why an operation on the file system failed.
#[derive(Clone, Copy, Debug, PartialEq, Eq, Structural)]
pub enum IoError {
    NotFound,
    PermissionDenied,
    AlreadyExists,
    Other,
}

/// One change to the file system.
#[derive(Debug, PartialEq, Eq)]
pub enum FsOp {
    /// Create an empty regular file at the path.
    CreateFile(String),
    /// Create a directory at the path.
    CreateDir(String),
    /// Rename the first path to the second.
    Rename(String, String),
    /// Remove the file at the path.
    RemoveFile(String),
    /// Remove the directory at the path with all that is in it.
    RemoveDirAll(String),
}

/// The mathematical value of an [`FsOp`].
pub enum FsOpModel {
    CreateFile(Seq<char>),
    CreateDir(Seq<char>),
    Rename(Seq<char>, Seq<char>),
    RemoveFile(Seq<char>),
    RemoveDirAll(Seq<char>),
}

impl View for FsOp {
    type V = FsOpModel;

    open spec fn view(&self) -> FsOpModel {
        match self {
            FsOp::CreateFile(p) => FsOpModel::CreateFile(p@),
            FsOp::CreateDir(p) => FsOpModel::CreateDir(p@),
            FsOp::Rename(from, to) => FsOpModel::Rename(from@, to@),
            FsOp::RemoveFile(p) => FsOpModel::RemoveFile(p@),
            FsOp::RemoveDirAll(p) => FsOpModel::RemoveDirAll(p@),
        }
    }
}

impl Clone for FsOp {
    fn clone(&self) -> (r: Self)
        ensures
            r@ == self@,
    {
        match self {
            FsOp::CreateFile(p) => FsOp::CreateFile(p.clone()),
            FsOp::CreateDir(p) => FsOp::CreateDir(p.clone()),
            FsOp::Rename(from, to) => FsOp::Rename(from.clone(), to.clone()),
            FsOp::RemoveFile(p) => FsOp::RemoveFile(p.clone()),
            FsOp::RemoveDirAll(p) => FsOp::RemoveDirAll(p.clone()),
        }
    }
}

/// What the caller has to do before the browser can go on.
#[derive(Debug, PartialEq, Eq)]
pub enum Request {
    /// Nothing.
    Idle,
    /// End the session.
    Quit,
    /// Read the whole file at the path as text, for the preview.
    Preview(String),
    /// List the directory at the path, to move into it.
    Navigate(String),
    /// List the directory at the path again, staying in it.
    Refresh(String),
    /// Make the change, then list the directory at the path, whether the
    /// change succeeded or not.
    Mutate(FsOp, String),
    /// Run the editor (first) on the path (second) and wait for it to end.
    Launch(String, String),
}

/// The mathematical value of a [`Request`].
pub enum RequestModel {
    Idle,
    Quit,
    Preview(Seq<char>),
    Navigate(Seq<char>),
    Refresh(Seq<char>),
    Mutate(FsOpModel, Seq<char>),
    Launch(Seq<char>, Seq<char>),
}

impl View for Request {
    type V = RequestModel;

    open spec fn view(&self) -> RequestModel {
        match self {
            Request::Idle => RequestModel::Idle,
            Request::Quit => RequestModel::Quit,
            Request::Preview(p) => RequestModel::Preview(p@),
            Request::Navigate(p) => RequestModel::Navigate(p@),
            Request::Refresh(p) => RequestModel::Refresh(p@),
            Request::Mutate(op, dir) => RequestModel::Mutate(op@, dir@),
            Request::Launch(editor, p) => RequestModel::Launch(editor@, p@),
        }
    }
}

impl Clone for Request {
    fn clone(&self) -> (r: Self)
        ensures
            r@ == self@,
    {
        match self {
            Request::Idle => Request::Idle,
            Request::Quit => Request::Quit,
            Request::Preview(p) => Request::Preview(p.clone()),
            Request::Navigate(p) => Request::Navigate(p.clone()),
            Request::Refresh(p) => Request::Refresh(p.clone()),
            Request::Mutate(op, dir) => Request::Mutate(op.clone(), dir.clone()),
            Request::Launch(editor, p) => Request::Launch(editor.clone(), p.clone()),
        }
    }
}

/// What the caller found when it carried out a [`Request`].
#[derive(Debug, PartialEq, Eq)]
pub enum Response {
    /// The text of the file, in answer to `Preview`.
    Read(Result<String, IoError>),
    /// The children of the directory, in any order, in answer to
    /// `Navigate` and `Refresh`.
    Listed(Result<Vec<Entry>, IoError>),
    /// How the change went, and the children of the directory listed
    /// after it, in answer to `Mutate`.
    Mutated(Result<(), IoError>, Result<Vec<Entry>, IoError>),
    /// How the editor's run went, in answer to `Launch`.
    Launched(Result<(), IoError>),
}

/// The mathematical value of a [`Response`].
pub enum ResponseModel {
    Read(Result<Seq<char>, IoError>),
    Listed(Result<Seq<EntryModel>, IoError>),
    Mutated(Result<(), IoError>, Result<Seq<EntryModel>, IoError>),
    Launched(Result<(), IoError>),
}

/// The value of a listing that was handed back.
pub open spec fn listing_view(l: Result<Vec<Entry>, IoError>) -> Result<Seq<EntryModel>, IoError> {
    match l {
        Ok(v) => Ok(views(v@)),
        Err(e) => Err(e),
    }
}

impl View for Response {
    type V = ResponseModel;

    open spec fn view(&self) -> ResponseModel {
        match self {
            Response::Read(Ok(text)) => ResponseModel::Read(Ok(text@)),
            Response::Read(Err(e)) => ResponseModel::Read(Err(*e)),
            Response::Listed(l) => ResponseModel::Listed(listing_view(*l)),
            Response::Mutated(done, l) => ResponseModel::Mutated(*done, listing_view(*l)),
            Response::Launched(done) => ResponseModel::Launched(*done),
        }
    }
}

} // verus!
