//! The handle of a registered scan, the request that registers one, and what
//! is made of a node's replies.
//!
//! Nothing here talks to a node. A caller sends what [`Registration::request`]
//! gives, or asks for the boxes of [`Scan::id`], and hands the reply in: a
//! node's answer, or the message of its failure.

use vstd::prelude::*;
use crate::predicate::{Predicate, Rule};
use crate::description::{Description, Member, Tree, describe, members_of};

verus! {

/// The identifier that a node gives to a scan it has registered.
pub type ScanID = String;

/// The identifier that a node gives when it took the request and could not
/// set the scan up.
pub open spec fn null_id() -> Seq<char> {
    "null"@
}

/// What can go wrong with a scan.
#[derive(Debug)]
pub enum ScanError {
    /// The node, or the way to it, failed; the message is the node's own.
    NodeError(String),
    /// One box was asked for and the scan matched none.
    NoBoxesFound,
    /// The node gave the null identifier.
    FailedToRegister,
    /// The identifiers could not be written down.
    IoError(String),
}

/// The mathematical value of a [`Scan`].
pub ghost struct ScanView {
    pub name: Seq<char>,
    pub id: Seq<char>,
}

/// A registered scan: its name, and the identifier that the node gave it.
#[derive(Debug, Clone)]
pub struct Scan {
    name: &'static str,
    id: ScanID,
}

/// The mathematical value of a [`Registration`].
pub ghost struct RegistrationView {
    pub name: Seq<char>,
    pub rule: Rule,
}

/// A scan that has not been registered yet: its name and its rule.
#[derive(Debug)]
pub struct Registration {
    name: &'static str,
    rule: Predicate,
}

/// What a node is sent to register `rule` under `name`.
pub open spec fn request_body(name: Seq<char>, rule: Rule) -> Tree {
    Tree::Record(seq![("scanName"@, Tree::Text(name)), ("trackingRule"@, describe(rule))])
}

/// What a registration under `name` comes to, given the node's reply.
pub open spec fn registered(name: Seq<char>, reply: Result<ScanID, String>) -> Result<
    ScanView,
    ScanError,
> {
    match reply {
        Err(failure) => Err(ScanError::NodeError(failure)),
        Ok(id) => if id@ == null_id() {
            Err(ScanError::FailedToRegister)
        } else {
            Ok(ScanView { name, id: id@ })
        },
    }
}

/// A node's reply, with its failure turned into a [`ScanError::NodeError`].
pub open spec fn relayed<T>(reply: Result<T, String>) -> Result<T, ScanError> {
    match reply {
        Ok(value) => Ok(value),
        Err(failure) => Err(ScanError::NodeError(failure)),
    }
}

/// The first of the boxes in a node's reply.
pub open spec fn first_box<B>(reply: Result<Vec<B>, String>) -> Result<B, ScanError> {
    match reply {
        Err(failure) => Err(ScanError::NodeError(failure)),
        Ok(boxes) => if boxes@.len() == 0 {
            Err(ScanError::NoBoxesFound)
        } else {
            Ok(boxes@[0])
        },
    }
}

fn relay<T>(reply: Result<T, String>) -> (out: Result<T, ScanError>)
    ensures
        out == relayed(reply),
{
    match reply {
        Ok(value) => Ok(value),
        Err(failure) => Err(ScanError::NodeError(failure)),
    }
}

/// Whether `id` is the null identifier.
pub fn is_null_id(id: &String) -> (null: bool)
    ensures
        null == (id@ == null_id()),
{
    let sentinel = "null".to_owned();
    *id == sentinel
}

impl View for Registration {
    type V = RegistrationView;

    closed spec fn view(&self) -> RegistrationView {
        RegistrationView { name: self.name@, rule: self.rule@ }
    }
}

impl Registration {
    /// The name that the scan will have.
    pub fn name(&self) -> (name: &'static str)
        ensures
            name@ == self@.name,
    {
        self.name
    }

    /// The rule that the scan will track.
    pub fn rule(&self) -> (rule: &Predicate)
        ensures
            rule@ == self@.rule,
    {
        &self.rule
    }

    /// What the node is to be sent: the name of the scan under `scanName`,
    /// then the description of its rule under `trackingRule`.
    pub fn request(&self) -> (body: Description)
        ensures
            body@ == request_body(self@.name, self@.rule),
    {
        let mut members: Vec<Member> = Vec::new();
        members.push(
            Member { key: "scanName".to_owned(), value: Description::Text(self.name.to_owned()) },
        );
        members.push(Member { key: "trackingRule".to_owned(), value: self.rule.describe() });
        assert(members_of(members@) =~= request_body(self@.name, self@.rule)->Record_0);
        Description::Record(members)
    }

    /// Ends the registration with the node's reply to the request. A failure
    /// of the node is handed on; the null identifier is refused; any other
    /// identifier makes the scan.
    pub fn complete(self, reply: Result<ScanID, String>) -> (out: Result<Scan, ScanError>)
        ensures
            match registered(self@.name, reply) {
                Ok(scan) => out matches Ok(made) && made@ == scan,
                Err(error) => out == Err::<Scan, ScanError>(error),
            },
    {
        match reply {
            Err(failure) => Err(ScanError::NodeError(failure)),
            Ok(id) => {
                if is_null_id(&id) {
                    Err(ScanError::FailedToRegister)
                } else {
                    Ok(Scan::new(self.name, &id))
                }
            },
        }
    }
}

impl View for Scan {
    type V = ScanView;

    closed spec fn view(&self) -> ScanView {
        ScanView { name: self.name@, id: self.id@ }
    }
}

impl Scan {
    /// A scan with the given name and identifier.
    pub fn new(name: &'static str, scan_id: &String) -> (scan: Scan)
        ensures
            scan@ == (ScanView { name: name@, id: scan_id@ }),
    {
        Scan { name, id: scan_id.clone() }
    }

    /// The name of the scan.
    pub fn name(&self) -> (name: &'static str)
        ensures
            name@ == self@.name,
    {
        self.name
    }

    /// The identifier by which the node knows the scan.
    pub fn id(&self) -> (id: &ScanID)
        ensures
            id@ == self@.id,
    {
        &self.id
    }

    /// Begins the registration of `tracking_rule` under `name`.
    pub fn register(name: &'static str, tracking_rule: Predicate) -> (pending: Registration)
        ensures
            pending@ == (RegistrationView { name: name@, rule: tracking_rule@ }),
    {
        Registration { name, rule: tracking_rule }
    }

    /// All boxes that the scan has found, from the node's reply to a query
    /// for this scan's identifier. No box at all is no error.
    pub fn get_boxes<B>(&self, reply: Result<Vec<B>, String>) -> (out: Result<Vec<B>, ScanError>)
        ensures
            out == relayed(reply),
    {
        relay(reply)
    }

    /// The first box that the scan has found, in the node's order, from the
    /// node's reply to a query for this scan's identifier.
    pub fn get_box<B>(&self, reply: Result<Vec<B>, String>) -> (out: Result<B, ScanError>)
        ensures
            out == first_box(reply),
    {
        match reply {
            Err(failure) => Err(ScanError::NodeError(failure)),
            Ok(boxes) => {
                let mut boxes = boxes;
                if boxes.len() == 0 {
                    Err(ScanError::NoBoxesFound)
                } else {
                    Ok(boxes.remove(0))
                }
            },
        }
    }

    /// The boxes of the scan in serialized form, from the node's reply to
    /// the request to serialize what [`Scan::get_boxes`] gave.
    pub fn get_serialized_boxes(&self, reply: Result<Vec<String>, String>) -> (out: Result<
        Vec<String>,
        ScanError,
    >)
        ensures
            out == relayed(reply),
    {
        relay(reply)
    }

    /// The first box of the scan in serialized form, from the node's reply
    /// to the request to serialize what [`Scan::get_box`] gave.
    pub fn get_serialized_box(&self, reply: Result<String, String>) -> (out: Result<
        String,
        ScanError,
    >)
        ensures
            out == relayed(reply),
    {
        relay(reply)
    }
}

} // verus!
