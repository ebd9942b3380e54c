//! The remote client: the four requests that the configuration server answers, the
//! shapes of what travels in each direction, and how an answer is judged.

use crate::text::followed_by;
use vstd::prelude::*;

verus! {

/// One container as the server reports it.
#[derive(Debug, PartialEq, Eq)]
pub struct ContainerInfo {
    pub id: String,
    pub name: String,
    pub state: String,
    pub status: String,
}

/// The text of the four fields of a [`ContainerInfo`].
pub struct ContainerInfoView {
    pub id: Seq<char>,
    pub name: Seq<char>,
    pub state: Seq<char>,
    pub status: Seq<char>,
}

impl View for ContainerInfo {
    type V = ContainerInfoView;

    open spec fn view(&self) -> ContainerInfoView {
        ContainerInfoView {
            id: self.id@,
            name: self.name@,
            state: self.state@,
            status: self.status@,
        }
    }
}

impl DeepView for ContainerInfo {
    type V = ContainerInfoView;

    open spec fn deep_view(&self) -> ContainerInfoView {
        self@
    }
}

impl Clone for ContainerInfo {
    fn clone(&self) -> (copy: Self)
        ensures
            copy@ == self@,
    {
        ContainerInfo {
            id: self.id.clone(),
            name: self.name.clone(),
            state: self.state.clone(),
            status: self.status.clone(),
        }
    }
}

/// The answer to a request for the list of configuration files.
#[derive(Debug, PartialEq, Eq)]
pub struct FileListResponse {
    pub files: Vec<String>,
}

/// The answer to a request for the content of a file.
#[derive(Debug, PartialEq, Eq)]
pub struct FileContentResponse {
    pub content: String,
}

/// The body of a request to write a file.
#[derive(Debug, PartialEq, Eq)]
pub struct WriteConfigRequest {
    pub content: String,
}

/// The answer to a request to write a file.
#[derive(Debug, PartialEq, Eq)]
pub struct WriteConfigResponse {
    pub success: bool,
}

/// The answer to a request for the list of containers.
#[derive(Debug, PartialEq, Eq)]
pub struct ContainerListResponse {
    pub containers: Vec<ContainerInfo>,
}

/// A request to the server that the caller is asked to send.
#[derive(Debug, PartialEq, Eq)]
pub enum Request {
    /// Ask for the list of configuration files.
    FetchFileList,
    /// Ask for the list of containers.
    FetchContainerList,
    /// Ask for the content of the file `filename`.
    FetchFileContent { filename: String },
    /// Send `content` as the new content of the file `filename`.
    SaveFile { filename: String, content: String },
}

/// The content of a [`Request`].
pub enum RequestView {
    FetchFileList,
    FetchContainerList,
    FetchFileContent { filename: Seq<char> },
    SaveFile { filename: Seq<char>, content: Seq<char> },
}

impl View for Request {
    type V = RequestView;

    open spec fn view(&self) -> RequestView {
        match self {
            Request::FetchFileList => RequestView::FetchFileList,
            Request::FetchContainerList => RequestView::FetchContainerList,
            Request::FetchFileContent { filename } => RequestView::FetchFileContent {
                filename: filename@,
            },
            Request::SaveFile { filename, content } => RequestView::SaveFile {
                filename: filename@,
                content: content@,
            },
        }
    }
}

impl DeepView for Request {
    type V = RequestView;

    open spec fn deep_view(&self) -> RequestView {
        self@
    }
}

impl RequestView {
    /// The path that the request goes to.
    pub open spec fn url(self) -> Seq<char> {
        match self {
            RequestView::FetchFileList => "/api/configs"@,
            RequestView::FetchContainerList => "/api/containers"@,
            RequestView::FetchFileContent { filename } => "/api/configs/"@ + filename,
            RequestView::SaveFile { filename, content } => "/api/configs/"@ + filename,
        }
    }

    /// The request carries a body and is sent with POST; the others are sent with GET.
    pub open spec fn posts(self) -> bool {
        self is SaveFile
    }

    /// How the failure to send the request begins when it is put into words.
    pub open spec fn failure_prefix(self) -> Seq<char> {
        match self {
            RequestView::FetchFileList => "Failed to fetch file list: "@,
            RequestView::FetchContainerList => "Failed to fetch containers: "@,
            RequestView::FetchFileContent { filename } => "Failed to fetch file: "@,
            RequestView::SaveFile { filename, content } => "Failed to save file: "@,
        }
    }
}

impl Request {
    /// The path that the request goes to.
    pub fn url(&self) -> (path: String)
        ensures
            path@ == self@.url(),
    {
        match self {
            Request::FetchFileList => "/api/configs".to_owned(),
            Request::FetchContainerList => "/api/containers".to_owned(),
            Request::FetchFileContent { filename } => followed_by(
                "/api/configs/",
                filename.as_str(),
            ),
            Request::SaveFile { filename, content: _ } => followed_by(
                "/api/configs/",
                filename.as_str(),
            ),
        }
    }

    /// The body to send with the request; none for the requests that only ask.
    pub fn body(&self) -> (body: Option<WriteConfigRequest>)
        ensures
            body is Some <==> self@.posts(),
            self matches Request::SaveFile { filename, content } ==> body matches Some(b)
                && b.content@ == content@,
    {
        match self {
            Request::SaveFile { filename: _, content } => Some(
                WriteConfigRequest { content: content.clone() },
            ),
            _ => None,
        }
    }
}

/// The decimal digit for `d`.
pub open spec fn digit(d: nat) -> char {
    if d == 0 {
        '0'
    } else if d == 1 {
        '1'
    } else if d == 2 {
        '2'
    } else if d == 3 {
        '3'
    } else if d == 4 {
        '4'
    } else if d == 5 {
        '5'
    } else if d == 6 {
        '6'
    } else if d == 7 {
        '7'
    } else if d == 8 {
        '8'
    } else {
        '9'
    }
}

/// `n` written in decimal digits, without leading zeros.
pub open spec fn decimal(n: nat) -> Seq<char>
    decreases n,
{
    if n < 10 {
        seq![digit(n)]
    } else {
        decimal(n / 10).push(digit(n % 10))
    }
}

/// The decimal digit for `d`.
pub fn digit_char(d: u16) -> (c: char)
    requires
        d < 10,
    ensures
        c == digit(d as nat),
{
    if d == 0 {
        '0'
    } else if d == 1 {
        '1'
    } else if d == 2 {
        '2'
    } else if d == 3 {
        '3'
    } else if d == 4 {
        '4'
    } else if d == 5 {
        '5'
    } else if d == 6 {
        '6'
    } else if d == 7 {
        '7'
    } else if d == 8 {
        '8'
    } else {
        '9'
    }
}

/// `n` written in decimal digits.
pub fn decimal_text(n: u16) -> (text: String)
    ensures
        text@ == decimal(n as nat),
    decreases n,
{
    if n < 10 {
        let mut text = String::new();
        text.push(digit_char(n));
        assert(text@ =~= decimal(n as nat));
        text
    } else {
        let mut text = decimal_text(n / 10);
        text.push(digit_char(n % 10));
        text
    }
}

/// The status code stands for success: it lies between 200 and 299.
pub open spec fn is_success(status: u16) -> bool {
    200 <= status <= 299
}

/// What a refusal by the server reads like.
pub open spec fn status_error_text(status: u16) -> Seq<char> {
    "Server returned error: "@ + decimal(status as nat)
}

/// What an answer that could not be decoded reads like.
pub open spec fn decode_error_text(detail: Seq<char>) -> Seq<char> {
    "Failed to parse JSON: "@ + detail
}

/// What a request body that could not be encoded reads like.
pub open spec fn encode_error_text(detail: Seq<char>) -> Seq<char> {
    "Failed to serialize JSON: "@ + detail
}

/// The error for a request that could not be sent, or got no answer: `detail`, headed
/// by what the request was for.
pub fn transport_error(request: &Request, detail: &str) -> (error: ApiError)
    ensures
        error.message@ == request@.failure_prefix() + detail@,
{
    let prefix = match request {
        Request::FetchFileList => "Failed to fetch file list: ",
        Request::FetchContainerList => "Failed to fetch containers: ",
        Request::FetchFileContent { filename: _ } => "Failed to fetch file: ",
        Request::SaveFile { filename: _, content: _ } => "Failed to save file: ",
    };
    ApiError { message: followed_by(prefix, detail) }
}

/// Judges the status code of an answer: a code from 200 to 299 passes, every other
/// code is an error that names the code.
pub fn check_status(status: u16) -> (verdict: Result<(), ApiError>)
    ensures
        verdict is Ok <==> is_success(status),
        verdict matches Err(error) ==> error.message@ == status_error_text(status),
{
    if 200 <= status && status <= 299 {
        Ok(())
    } else {
        let code = decimal_text(status);
        Err(ApiError { message: followed_by("Server returned error: ", code.as_str()) })
    }
}

/// The error for an answer whose body could not be decoded.
pub fn decode_error(detail: &str) -> (error: ApiError)
    ensures
        error.message@ == decode_error_text(detail@),
{
    ApiError { message: followed_by("Failed to parse JSON: ", detail) }
}

/// The error for a request whose body could not be encoded.
pub fn encode_error(detail: &str) -> (error: ApiError)
    ensures
        error.message@ == encode_error_text(detail@),
{
    ApiError { message: followed_by("Failed to serialize JSON: ", detail) }
}

/// A failed request: what went wrong, in words fit for the status line.
#[derive(Debug, PartialEq, Eq)]
pub struct ApiError {
    pub message: String,
}

/// A copy of `names`.
pub fn clone_names(names: &Vec<String>) -> (copy: Vec<String>)
    ensures
        copy.deep_view() == names.deep_view(),
{
    let mut copy: Vec<String> = Vec::new();
    let mut i: usize = 0;
    while i < names.len()
        invariant
            i <= names.len(),
            copy.len() == i,
            forall|j: int| 0 <= j < i ==> copy[j]@ == names[j]@,
        decreases names.len() - i,
    {
        copy.push(names[i].clone());
        i += 1;
    }
    assert(copy.deep_view() =~= names.deep_view());
    copy
}

/// A copy of `containers`.
pub fn clone_containers(containers: &Vec<ContainerInfo>) -> (copy: Vec<ContainerInfo>)
    ensures
        copy.deep_view() == containers.deep_view(),
{
    let mut copy: Vec<ContainerInfo> = Vec::new();
    let mut i: usize = 0;
    while i < containers.len()
        invariant
            i <= containers.len(),
            copy.len() == i,
            forall|j: int| 0 <= j < i ==> copy[j]@ == containers[j]@,
        decreases containers.len() - i,
    {
        copy.push(containers[i].clone());
        i += 1;
    }
    assert(copy.deep_view() =~= containers.deep_view());
    copy
}

} // verus!
