//! The order of the steps of one run: fetch the table of contents, then list
//! it, or look an entry up and fetch its document. The program around the
//! library sends each request and hands the reply back; no request is known
//! before the reply to the one before it has been handled.

use vstd::prelude::*;
use crate::address::{address_of, toc_url, url_join, TOC_ENDPOINT};
use crate::archive::{archive_text, extract_first_file, zip_directory};
use crate::error::{ErrorKind, Failure};
use crate::item::Entry;
use crate::toc::{bytes_catalog, is_first_match, line_of, no_match, Toc};

verus! {

/// What the user asks for.
#[derive(Debug, Clone)]
pub enum Command {
    /// List all entries of the table of contents.
    List,
    /// Print the text of the law with this short identifier.
    Get(String),
}

/// What came back for one request.
#[derive(Debug, Clone)]
pub enum Reply {
    /// The server answered.
    Response { status: u16, body: Vec<u8> },
    /// The transport failed before an answer came; the text says how.
    Failed { reason: String },
}

/// A reply, as plain values.
pub enum ReplyView {
    Response { status: u16, body: Seq<u8> },
    Failed { reason: Seq<char> },
}

impl View for Reply {
    type V = ReplyView;

    open spec fn view(&self) -> ReplyView {
        match *self {
            Reply::Response { status, body } => ReplyView::Response { status, body: body@ },
            Reply::Failed { reason } => ReplyView::Failed { reason: reason@ },
        }
    }
}

/// Whether a status says that the request succeeded.
pub open spec fn is_success(status: u16) -> bool {
    200 <= status < 300
}

/// The body of a reply: that of an answer with a status of success.
pub open spec fn reply_body(reply: ReplyView) -> Result<Seq<u8>, Failure> {
    match reply {
        ReplyView::Response { status, body } => if is_success(status) {
            Ok(body)
        } else {
            Err(Failure::HttpStatusError(status))
        },
        ReplyView::Failed { reason } => Err(Failure::NetworkError(reason)),
    }
}

/// The body of a reply. Fails with `NetworkError` where the transport
/// failed, and with `HttpStatusError` where the status is outside 200 to 299.
pub fn body_of(reply: Reply) -> (r: Result<Vec<u8>, ErrorKind>)
    ensures
        match r {
            Ok(body) => reply_body(reply@) == Ok::<Seq<u8>, Failure>(body@),
            Err(e) => reply_body(reply@) == Err::<Seq<u8>, Failure>(e@),
        },
{
    match reply {
        Reply::Response { status, body } => if 200 <= status && status < 300 {
            Ok(body)
        } else {
            Err(ErrorKind::HttpStatusError(status))
        },
        Reply::Failed { reason } => Err(ErrorKind::NetworkError(reason)),
    }
}

/// What a pending request is made for.
pub enum Purpose {
    /// The table of contents, to list it.
    Listing,
    /// The table of contents, to look this identifier up.
    Lookup(Seq<char>),
    /// The document of an entry.
    Document,
}

/// What a pending request is made for, as the program holds it.
enum Waiting {
    Listing,
    Lookup(String),
    Document,
}

/// A request that is to be sent, and what its reply is for.
pub struct Pending {
    url: String,
    waiting: Waiting,
}

/// What is to be done next.
pub enum Step {
    /// Send this request and hand its reply to `Pending::resume`.
    Fetch(Pending),
    /// Print these lines; the run is over.
    Lines(Vec<String>),
    /// Print this text; the run is over.
    Text(String),
    /// Report this failure and print nothing else; the run is over.
    Fail(ErrorKind),
}

/// What is to be done next, as plain values.
pub enum Plan {
    Fetch { url: Seq<char>, purpose: Purpose },
    Lines(Seq<Seq<char>>),
    Text(Seq<char>),
    Fail(Failure),
}

impl Pending {
    /// The address to send the request to.
    pub closed spec fn address(&self) -> Seq<char> {
        self.url@
    }

    /// What the reply is for.
    pub closed spec fn purpose(&self) -> Purpose {
        match self.waiting {
            Waiting::Listing => Purpose::Listing,
            Waiting::Lookup(id) => Purpose::Lookup(id@),
            Waiting::Document => Purpose::Document,
        }
    }

    /// The address to send the request to.
    pub fn url(&self) -> (url: &str)
        ensures
            url@ == self.address(),
    {
        self.url.as_str()
    }
}

/// The texts that a vector of lines stands for.
pub open spec fn lines_view(lines: Seq<String>) -> Seq<Seq<char>> {
    lines.map_values(|line: String| line@)
}

impl View for Step {
    type V = Plan;

    open spec fn view(&self) -> Plan {
        match *self {
            Step::Fetch(pending) => Plan::Fetch {
                url: pending.address(),
                purpose: pending.purpose(),
            },
            Step::Lines(lines) => Plan::Lines(lines_view(lines@)),
            Step::Text(text) => Plan::Text(text@),
            Step::Fail(e) => Plan::Fail(e@),
        }
    }
}

/// What a command starts with, given the address of the table of contents.
pub open spec fn first_plan(command_id: Option<Seq<char>>, address: Result<Seq<char>, Failure>)
    -> Plan {
    match address {
        Ok(url) => Plan::Fetch {
            url,
            purpose: match command_id {
                Some(id) => Purpose::Lookup(id),
                None => Purpose::Listing,
            },
        },
        Err(failure) => Plan::Fail(failure),
    }
}

/// The identifier that a command looks up, if any.
pub open spec fn command_id(command: Command) -> Option<Seq<char>> {
    match command {
        Command::List => None,
        Command::Get(id) => Some(id@),
    }
}

/// What follows the table of contents when it is to be listed: the lines of
/// its entries in catalog order.
pub open spec fn listing_plan(catalog: Result<Seq<Entry>, Failure>) -> Plan {
    match catalog {
        Ok(entries) => Plan::Lines(entries.map_values(|entry: Entry| line_of(entry))),
        Err(failure) => Plan::Fail(failure),
    }
}

/// Whether `plan` is what follows the table of contents when `id` is looked
/// up in it: the request for the document of the first entry with this
/// identifier, at its link as it stands; `IdentifierNotFound` where there is
/// none.
pub open spec fn is_lookup_plan(catalog: Result<Seq<Entry>, Failure>, id: Seq<char>, plan: Plan)
    -> bool {
    match catalog {
        Ok(entries) => match plan {
            Plan::Fetch { url, purpose } => purpose is Document && exists|index: int|
                is_first_match(entries, id, index) && url == (#[trigger] entries[index]).link,
            Plan::Fail(failure) => no_match(entries, id) && failure
                == Failure::IdentifierNotFound(id),
            _ => false,
        },
        Err(failure) => plan == Plan::Fail(failure),
    }
}

/// What follows the archive of a document: its text.
pub open spec fn document_plan(text: Result<Seq<char>, Failure>) -> Plan {
    match text {
        Ok(text) => Plan::Text(text),
        Err(failure) => Plan::Fail(failure),
    }
}

/// The table of contents in the body of a reply.
pub open spec fn reply_catalog(reply: ReplyView) -> Result<Seq<Entry>, Failure> {
    match reply_body(reply) {
        Ok(body) => bytes_catalog(body),
        Err(failure) => Err(failure),
    }
}

/// The text of the document in the body of a reply.
pub open spec fn reply_text(reply: ReplyView) -> Result<Seq<char>, Failure> {
    match reply_body(reply) {
        Ok(body) => archive_text(zip_directory(body)),
        Err(failure) => Err(failure),
    }
}

/// Starts a run: the first request is for the table of contents of the
/// service at `base`. Fails with `InvalidUrl` where `base` is no address.
pub fn start(base: &str, command: Command) -> (step: Step)
    ensures
        step@ == first_plan(command_id(command), address_of(url_join(base@, TOC_ENDPOINT@))),
{
    match toc_url(base) {
        Ok(url) => {
            let waiting = match command {
                Command::List => Waiting::Listing,
                Command::Get(id) => Waiting::Lookup(id),
            };
            Step::Fetch(Pending { url, waiting })
        },
        Err(e) => Step::Fail(e),
    }
}

/// The table of contents that a reply holds.
fn catalog_of_reply(reply: Reply) -> (r: Result<Toc, ErrorKind>)
    ensures
        match r {
            Ok(toc) => reply_catalog(reply@) == Ok::<Seq<Entry>, Failure>(toc@),
            Err(e) => reply_catalog(reply@) == Err::<Seq<Entry>, Failure>(e@),
        },
{
    match body_of(reply) {
        Ok(body) => Toc::from_bytes(body),
        Err(e) => Err(e),
    }
}

impl Pending {
    /// Goes on with the reply to this request.
    ///
    /// A failure of the request, of parsing, of the lookup or of the
    /// extraction ends the run with that failure. After the table of contents
    /// a listing ends the run with its lines, and a lookup goes on with the
    /// request for the document; after the document the run ends with its
    /// text.
    pub fn resume(self, reply: Reply) -> (step: Step)
        ensures
            match self.purpose() {
                Purpose::Listing => step@ == listing_plan(reply_catalog(reply@)),
                Purpose::Lookup(id) => is_lookup_plan(reply_catalog(reply@), id, step@),
                Purpose::Document => step@ == document_plan(reply_text(reply@)),
            },
    {
        match self.waiting {
            Waiting::Listing => match catalog_of_reply(reply) {
                Ok(toc) => {
                    let lines = toc.list_lines();
                    assert(lines_view(lines@) =~= toc@.map_values(|entry: Entry| line_of(entry)));
                    Step::Lines(lines)
                },
                Err(e) => Step::Fail(e),
            },
            Waiting::Lookup(id) => match catalog_of_reply(reply) {
                Ok(toc) => match toc.position(id.as_str()) {
                    Some(index) => {
                        let url = toc.items[index].link.clone();
                        assert(toc@[index as int].link == url@);
                        Step::Fetch(Pending { url, waiting: Waiting::Document })
                    },
                    None => Step::Fail(ErrorKind::IdentifierNotFound(id)),
                },
                Err(e) => Step::Fail(e),
            },
            Waiting::Document => match body_of(reply) {
                Ok(body) => match extract_first_file(body) {
                    Ok(text) => Step::Text(text),
                    Err(e) => Step::Fail(e),
                },
                Err(e) => Step::Fail(e),
            },
        }
    }
}

} // verus!
