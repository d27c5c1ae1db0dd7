//! The container's lifecycle and the record persisted as `state.json`.
use vstd::prelude::*;
use vstd::string::*;

use crate::error::Error;
use crate::json::{
    escape, escape_str, lemma_parse_decimal, lemma_parse_escaped, parse_num, parse_str,
    parse_str_at, parse_u64_at,
};
use crate::text::{decimal, str_eq, to_decimal};

verus! {

/// The version of the runtime specification the state document declares.
pub open spec fn oci_version() -> Seq<char> {
    "1.0.2-dev"@
}

/// Where a container stands in its lifecycle.
#[derive(Clone, Copy, Debug, PartialEq, Eq, Structural)]
pub enum Status {
    Creating,
    Created,
    Running,
    Stopped,
}

/// The lifecycle's moves: `create` finishes (`Creating` to `Created`), `start`
/// releases the process (`Created` to `Running`), and a container that is
/// being set up, waits or runs can stop.
pub open spec fn transition_allowed(from: Status, to: Status) -> bool {
    match (from, to) {
        (Status::Creating, Status::Created) => true,
        (Status::Created, Status::Running) => true,
        (Status::Creating, Status::Stopped) => true,
        (Status::Created, Status::Stopped) => true,
        (Status::Running, Status::Stopped) => true,
        _ => false,
    }
}

impl Status {
    /// Whether the lifecycle may move from `self` to `to`.
    pub fn can_transition(&self, to: Status) -> (r: bool)
        ensures
            r == transition_allowed(*self, to),
    {
        match (*self, to) {
            (Status::Creating, Status::Created) => true,
            (Status::Created, Status::Running) => true,
            (Status::Creating, Status::Stopped) => true,
            (Status::Created, Status::Stopped) => true,
            (Status::Running, Status::Stopped) => true,
            _ => false,
        }
    }

    /// The name the state document gives the status.
    pub fn as_str(&self) -> (r: &'static str)
        ensures
            r@ == status_name(*self),
    {
        match *self {
            Status::Creating => "creating",
            Status::Created => "created",
            Status::Running => "running",
            Status::Stopped => "stopped",
        }
    }
}

/// The name the state document gives a status.
pub open spec fn status_name(s: Status) -> Seq<char> {
    match s {
        Status::Creating => "creating"@,
        Status::Created => "created"@,
        Status::Running => "running"@,
        Status::Stopped => "stopped"@,
    }
}

/// The state document of one container.
#[derive(Clone, Debug)]
pub struct State {
    pub oci_version: String,
    pub id: String,
    pub status: Status,
    pub pid: u64,
    pub bundle: String,
}

impl State {
    /// A container being created: status `Creating`, the runtime's version.
    pub fn new(id: &String, pid: u64, bundle: &String) -> (r: State)
        ensures
            r.oci_version@ == oci_version(),
            r.id@ == id@,
            r.status == Status::Creating,
            r.pid == pid,
            r.bundle@ == bundle@,
    {
        proof {
            reveal_strlit("1.0.2-dev");
        }
        State {
            oci_version: "1.0.2-dev".to_string(),
            id: id.clone(),
            status: Status::Creating,
            pid,
            bundle: bundle.clone(),
        }
    }

    /// Records that the init process `pid` is set up and waits to be started.
    pub fn mark_created(&mut self, pid: u64)
        requires
            pid > 0,
            old(self).status == Status::Creating,
        ensures
            final(self).status == Status::Created,
            final(self).pid == pid,
            final(self).oci_version@ == old(self).oci_version@,
            final(self).id@ == old(self).id@,
            final(self).bundle@ == old(self).bundle@,
    {
        self.status = Status::Created;
        self.pid = pid;
    }

    /// Moves the lifecycle to `to` where that move is allowed; leaves the
    /// record as it was and answers `false` otherwise.
    pub fn transition(&mut self, to: Status) -> (r: bool)
        ensures
            r == transition_allowed(old(self).status, to),
            final(self).status == (if r { to } else { old(self).status }),
            final(self).pid == old(self).pid,
            final(self).oci_version@ == old(self).oci_version@,
            final(self).id@ == old(self).id@,
            final(self).bundle@ == old(self).bundle@,
    {
        if self.status.can_transition(to) {
            self.status = to;
            true
        } else {
            false
        }
    }
}

/// No allowed move leads back to `Creating`: a container that has left it
/// never returns to it.
pub proof fn lemma_no_return_to_creating(from: Status, to: Status)
    requires
        from != Status::Creating,
        transition_allowed(from, to),
    ensures
        to != Status::Creating,
{
}

/// The status a state document names.
pub open spec fn status_of_name(x: Seq<char>) -> Option<Status> {
    if x == "creating"@ {
        Some(Status::Creating)
    } else if x == "created"@ {
        Some(Status::Created)
    } else if x == "running"@ {
        Some(Status::Running)
    } else if x == "stopped"@ {
        Some(Status::Stopped)
    } else {
        None
    }
}

/// The fields of a state document: version, id, status, pid and bundle.
pub type StateFields = (Seq<char>, Seq<char>, Status, nat, Seq<char>);

/// The text of a state document.
pub open spec fn state_doc(f: StateFields) -> Seq<char> {
    "{\"ociVersion\":\""@ + escape(f.0) + "\""@ + ",\"id\":\""@ + escape(f.1) + "\""@
        + ",\"status\":\""@ + escape(status_name(f.2)) + "\""@ + ",\"pid\":"@ + decimal(f.3)
        + ",\"bundle\":\""@ + escape(f.4) + "\""@ + "}"@
}

/// What is left of `t` after `p`, where `t` starts with `p`.
pub open spec fn after_prefix(t: Seq<char>, p: Seq<char>) -> Option<Seq<char>> {
    if p.len() <= t.len() && t.subrange(0, p.len() as int) == p {
        Some(t.subrange(p.len() as int, t.len() as int))
    } else {
        None
    }
}

/// Reads a state document: its fields, or nothing where `t` is not one.
pub open spec fn parse_state_doc(t: Seq<char>) -> Option<StateFields> {
    match after_prefix(t, "{\"ociVersion\":\""@) {
        None => None,
        Some(t1) => match parse_str(t1) {
            None => None,
            Some((oci, t2)) => match after_prefix(t2, ",\"id\":\""@) {
                None => None,
                Some(t3) => match parse_str(t3) {
                    None => None,
                    Some((id, t4)) => match after_prefix(t4, ",\"status\":\""@) {
                        None => None,
                        Some(t5) => match parse_str(t5) {
                            None => None,
                            Some((name, t6)) => match status_of_name(name) {
                                None => None,
                                Some(status) => match after_prefix(t6, ",\"pid\":"@) {
                                    None => None,
                                    Some(t7) => match parse_num(t7) {
                                        None => None,
                                        Some((pid, t8)) => match after_prefix(t8, ",\"bundle\":\""@) {
                                            None => None,
                                            Some(t9) => match parse_str(t9) {
                                                None => None,
                                                Some((bundle, t10)) => if t10 == "}"@ {
                                                    Some((oci, id, status, pid, bundle))
                                                } else {
                                                    None
                                                },
                                            },
                                        },
                                    },
                                },
                            },
                        },
                    },
                },
            },
        },
    }
}

/// The fields of a state record.
pub open spec fn fields_of(s: State) -> StateFields {
    (s.oci_version@, s.id@, s.status, s.pid as nat, s.bundle@)
}

/// Where `t` continues with `p` at character `i`: the position after it.
fn expect_at(t: &str, i: usize, p: &str) -> (r: Option<usize>)
    requires
        i <= t@.len(),
    ensures
        r is Some <==> after_prefix(t@.subrange(i as int, t@.len() as int), p@) is Some,
        r matches Some(j) ==> i <= j <= t@.len() && after_prefix(
            t@.subrange(i as int, t@.len() as int),
            p@,
        ) == Some(t@.subrange(j as int, t@.len() as int)),
{
    let n = t.unicode_len();
    let m = p.unicode_len();
    if m > n - i {
        return None;
    }
    let head = t.substring_char(i, i + m);
    let ghost ti = t@.subrange(i as int, n as int);
    assert(ti.subrange(0, m as int) =~= head@);
    assert(ti.subrange(m as int, ti.len() as int) =~= t@.subrange(i + m, n as int));
    if str_eq(head, p) {
        Some(i + m)
    } else {
        None
    }
}

fn status_from_name(x: &str) -> (r: Option<Status>)
    ensures
        r == status_of_name(x@),
{
    if str_eq(x, "creating") {
        Some(Status::Creating)
    } else if str_eq(x, "created") {
        Some(Status::Created)
    } else if str_eq(x, "running") {
        Some(Status::Running)
    } else if str_eq(x, "stopped") {
        Some(Status::Stopped)
    } else {
        None
    }
}

impl State {
    /// The state document, as `save` writes it.
    pub fn to_json(&self) -> (r: String)
        ensures
            r@ == state_doc(fields_of(*self)),
    {
        let mut r = "{\"ociVersion\":\"".to_string();
        r.append(escape_str(self.oci_version.as_str()).as_str());
        r.append("\"");
        r.append(",\"id\":\"");
        r.append(escape_str(self.id.as_str()).as_str());
        r.append("\"");
        r.append(",\"status\":\"");
        r.append(escape_str(self.status.as_str()).as_str());
        r.append("\"");
        r.append(",\"pid\":");
        r.append(to_decimal(self.pid).as_str());
        r.append(",\"bundle\":\"");
        r.append(escape_str(self.bundle.as_str()).as_str());
        r.append("\"");
        r.append("}");
        r
    }

    /// Reads a state document, as `load` does: a `Runtime` error where the
    /// text is no state document or its pid does not fit in a `u64`.
    pub fn from_json(text: &str) -> (r: Result<State, Error>)
        ensures
            r is Ok <==> (parse_state_doc(text@) matches Some(f) && f.3 <= u64::MAX),
            r matches Ok(s) ==> parse_state_doc(text@) == Some(fields_of(s)),
            r matches Err(e) ==> e.err_type == crate::error::ErrorType::Runtime,
    {
        let n = text.unicode_len();
        assert(text@.subrange(0, n as int) =~= text@);
        let parsed = Self::parse_fields(text);
        match parsed {
            Some(s) => Ok(s),
            None => Err(Error::runtime("invalid state document".to_string())),
        }
    }

    fn parse_fields(t: &str) -> (r: Option<State>)
        ensures
            r is Some <==> (parse_state_doc(t@) matches Some(f) && f.3 <= u64::MAX),
            r matches Some(s) ==> parse_state_doc(t@) == Some(fields_of(s)),
    {
        let n = t.unicode_len();
        assert(t@.subrange(0, n as int) =~= t@);
        let i1 = match expect_at(t, 0, "{\"ociVersion\":\"") { Some(j) => j, None => return None };
        let (oci, i2) = match parse_str_at(t, i1) { Some(x) => x, None => return None };
        let i3 = match expect_at(t, i2, ",\"id\":\"") { Some(j) => j, None => return None };
        let (id, i4) = match parse_str_at(t, i3) { Some(x) => x, None => return None };
        let i5 = match expect_at(t, i4, ",\"status\":\"") { Some(j) => j, None => return None };
        let (name, i6) = match parse_str_at(t, i5) { Some(x) => x, None => return None };
        let status = match status_from_name(name.as_str()) { Some(s) => s, None => return None };
        let i7 = match expect_at(t, i6, ",\"pid\":") { Some(j) => j, None => return None };
        let (pid, i8) = match parse_u64_at(t, i7) {
            Some(x) => x,
            None => {
                assert(parse_state_doc(t@) matches Some(f) ==> f.3 > u64::MAX);
                return None;
            },
        };
        let i9 = match expect_at(t, i8, ",\"bundle\":\"") { Some(j) => j, None => return None };
        let (bundle, i10) = match parse_str_at(t, i9) { Some(x) => x, None => return None };
        if !str_eq(t.substring_char(i10, n), "}") {
            return None;
        }
        Some(State { oci_version: oci, id, status, pid, bundle })
    }
}

proof fn lemma_after_prefix(p: Seq<char>, x: Seq<char>)
    ensures
        after_prefix(p + x, p) == Some(x),
{
    assert((p + x).subrange(0, p.len() as int) =~= p);
    assert((p + x).subrange(p.len() as int, (p + x).len() as int) =~= x);
}

/// A state document is read back as it was written: loading what `save`
/// wrote gives the same version, id, status, pid and bundle.
pub proof fn lemma_state_round_trip(f: StateFields)
    ensures
        parse_state_doc(state_doc(f)) == Some(f),
{
    reveal_strlit("\"");
    reveal_strlit(",\"id\":\"");
    reveal_strlit(",\"pid\":");
    reveal_strlit("creating");
    reveal_strlit("created");
    reveal_strlit("running");
    reveal_strlit("stopped");
    let q = "\""@;
    let l0 = "{\"ociVersion\":\""@;
    let l1 = ",\"id\":\""@;
    let l2 = ",\"status\":\""@;
    let l3 = ",\"pid\":"@;
    let l4 = ",\"bundle\":\""@;
    let l5 = "}"@;
    assert(q =~= seq!['"']);
    let t10 = l5;
    let t9 = escape(f.4) + q + t10;
    let t8 = l4 + t9;
    let t7 = decimal(f.3) + t8;
    let t6 = l3 + t7;
    let t5 = escape(status_name(f.2)) + q + t6;
    let t4 = l2 + t5;
    let t3 = escape(f.1) + q + t4;
    let t2 = l1 + t3;
    let t1 = escape(f.0) + q + t2;
    let t0 = l0 + t1;
    assert(state_doc(f) =~= t0);
    lemma_after_prefix(l0, t1);
    lemma_parse_escaped(f.0, t2);
    lemma_after_prefix(l1, t3);
    lemma_parse_escaped(f.1, t4);
    lemma_after_prefix(l2, t5);
    lemma_parse_escaped(status_name(f.2), t6);
    assert(status_of_name(status_name(f.2)) == Some(f.2));
    lemma_after_prefix(l3, t7);
    reveal_strlit(",\"bundle\":\"");
    assert(t8[0] == ',');
    lemma_parse_decimal(f.3, t8);
    lemma_after_prefix(l4, t9);
    lemma_parse_escaped(f.4, t10);
}

/// Saving a state record and loading it back gives the same record.
pub proof fn lemma_load_save(s: State)
    ensures
        parse_state_doc(state_doc(fields_of(s))) == Some(fields_of(s)),
        fields_of(s).3 <= u64::MAX,
{
    lemma_state_round_trip(fields_of(s));
}

} // verus!
