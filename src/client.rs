//! The client: the remote calls behind each operation, and the decoding of
//! their answers into typed values.
use vstd::prelude::*;
use crate::ipv4::{parse_ipv4, Ipv4};
use crate::reply::{Expected, Reply, RpcError};

verus! {

/// The view of a list of strings: the text of each.
pub open spec fn texts(v: Seq<String>) -> Seq<Seq<char>> {
    v.map_values(|s: String| s@)
}

/// One remote procedure call: the method's name and its string arguments.
#[derive(Debug)]
pub struct Call {
    pub method: String,
    pub args: Vec<String>,
}

/// The remote queries that the client makes.
#[derive(Debug)]
pub enum Query {
    /// The address that the remote end is bound to.
    BindAddress,
    /// The remote host's name.
    Hostname,
    /// Bytes downloaded in all.
    DownTotal,
    /// The current download rate, in bytes per second.
    DownRate,
    /// Bytes uploaded in all.
    UpTotal,
    /// The current upload rate, in bytes per second.
    UpRate,
    /// The listing of the items of a view, such as `main`.
    Torrents(String),
    /// The completion count of the item with this hash.
    Complete(String),
    /// The completed bytes of the item with this hash.
    CompletedBytes(String),
    /// The download rate of the item with this hash.
    ItemDownRate(String),
    /// The upload rate of the item with this hash.
    ItemUpRate(String),
}

impl Query {
    /// The name of the remote method.
    pub open spec fn method(self) -> Seq<char> {
        match self {
            Query::BindAddress => "network.bind_address"@,
            Query::Hostname => "system.hostname"@,
            Query::DownTotal => "throttle.global_down.total"@,
            Query::DownRate => "throttle.global_down.rate"@,
            Query::UpTotal => "throttle.global_up.total"@,
            Query::UpRate => "throttle.global_up.rate"@,
            Query::Torrents(_) => "d.multicall2"@,
            Query::Complete(_) => "d.complete"@,
            Query::CompletedBytes(_) => "d.completed_bytes"@,
            Query::ItemDownRate(_) => "d.down.rate"@,
            Query::ItemUpRate(_) => "d.up.rate"@,
        }
    }

    /// The arguments of the remote method. A listing passes an empty
    /// target, the view, and the six getters whose results make up a row.
    pub open spec fn args(self) -> Seq<Seq<char>> {
        match self {
            Query::Torrents(view) => seq![
                ""@,
                view@,
                "d.hash="@,
                "d.name="@,
                "d.base_path="@,
                "d.size_bytes="@,
                "d.custom1="@,
                "d.ratio="@,
            ],
            Query::Complete(hash) => seq![hash@],
            Query::CompletedBytes(hash) => seq![hash@],
            Query::ItemDownRate(hash) => seq![hash@],
            Query::ItemUpRate(hash) => seq![hash@],
            _ => seq![],
        }
    }

    /// The call that makes this query.
    pub fn call(&self) -> (r: Call)
        ensures
            r.method@ == self.method(),
            texts(r.args@) == self.args(),
    {
        let mut args: Vec<String> = Vec::new();
        let method = match self {
            Query::BindAddress => "network.bind_address",
            Query::Hostname => "system.hostname",
            Query::DownTotal => "throttle.global_down.total",
            Query::DownRate => "throttle.global_down.rate",
            Query::UpTotal => "throttle.global_up.total",
            Query::UpRate => "throttle.global_up.rate",
            Query::Torrents(view) => {
                args.push(String::from_str(""));
                args.push(view.clone());
                args.push(String::from_str("d.hash="));
                args.push(String::from_str("d.name="));
                args.push(String::from_str("d.base_path="));
                args.push(String::from_str("d.size_bytes="));
                args.push(String::from_str("d.custom1="));
                args.push(String::from_str("d.ratio="));
                "d.multicall2"
            },
            Query::Complete(hash) => {
                args.push(hash.clone());
                "d.complete"
            },
            Query::CompletedBytes(hash) => {
                args.push(hash.clone());
                "d.completed_bytes"
            },
            Query::ItemDownRate(hash) => {
                args.push(hash.clone());
                "d.down.rate"
            },
            Query::ItemUpRate(hash) => {
                args.push(hash.clone());
                "d.up.rate"
            },
        };
        assert(texts(args@) =~= self.args());
        Call { method: String::from_str(method), args }
    }
}


/// A client of one remote end, named by its address (a URL). Making it
/// connects to nothing.
#[derive(Debug)]
pub struct RTorrent {
    url: String,
}

/// One item of a listing.
#[derive(Debug)]
pub struct Torrent {
    /// The identifying hash.
    pub hash: String,
    /// The display name.
    pub name: String,
    /// Where the item lies on the remote end.
    pub path: String,
    /// The size in bytes.
    pub size: i64,
    /// The free-form label (`d.custom1`); may be empty.
    pub label: String,
    /// The upload/download ratio in thousandths, as the wire carries it:
    /// the ratio itself is this value divided by 1000.
    pub ratio_milli: i64,
}

/// The transfer state of one item at the time of asking.
#[derive(Debug)]
pub struct Status {
    /// Whether the remote completion count is above zero.
    pub completed: bool,
    pub completed_bytes: i64,
    /// Download rate, bytes per second.
    pub down_rate: i64,
    /// Upload rate, bytes per second.
    pub up_rate: i64,
    /// Taken, in thousandths, from the item's download rate: the ratio is
    /// this value divided by 1000.
    pub ratio_milli: i64,
}

/// A file of an item: its path and size. No operation produces one yet.
#[derive(Debug)]
pub struct File {
    pub path: String,
    pub size: i64,
}

/// Whether `r` is a row of a listing: an array of six values, strings but
/// for the integers at places three and five.
pub open spec fn is_row(r: Reply) -> bool {
    match r.list() {
        Some(v) => v.len() == 6 && v[0].text() is Some && v[1].text() is Some
            && v[2].text() is Some && v[3].integer() is Some && v[4].text() is Some
            && v[5].integer() is Some,
        None => false,
    }
}

/// Whether `t` holds what the row `r` holds, field by field.
pub open spec fn row_matches(r: Reply, t: Torrent) -> bool {
    &&& is_row(r)
    &&& r.list().unwrap()[0].text() == Some(t.hash@)
    &&& r.list().unwrap()[1].text() == Some(t.name@)
    &&& r.list().unwrap()[2].text() == Some(t.path@)
    &&& r.list().unwrap()[3].integer() == Some(t.size)
    &&& r.list().unwrap()[4].text() == Some(t.label@)
    &&& r.list().unwrap()[5].integer() == Some(t.ratio_milli)
}

/// Reads one row of a listing.
fn read_row(r: &Reply) -> (res: Result<Torrent, RpcError>)
    ensures
        match res {
            Ok(t) => row_matches(*r, t),
            Err(e) => !is_row(*r) && e == RpcError::UnexpectedShape(Expected::Row),
        },
{
    let bad = RpcError::UnexpectedShape(Expected::Row);
    match r {
        Reply::List(v) => {
            if v.len() != 6 {
                return Err(bad);
            }
            let hash = match v[0].as_text() { Ok(x) => x, Err(_) => return Err(bad) };
            let name = match v[1].as_text() { Ok(x) => x, Err(_) => return Err(bad) };
            let path = match v[2].as_text() { Ok(x) => x, Err(_) => return Err(bad) };
            let size = match v[3].as_int() { Ok(x) => x, Err(_) => return Err(bad) };
            let label = match v[4].as_text() { Ok(x) => x, Err(_) => return Err(bad) };
            let ratio_milli = match v[5].as_int() { Ok(x) => x, Err(_) => return Err(bad) };
            Ok(Torrent { hash, name, path, size, label, ratio_milli })
        },
        _ => Err(bad),
    }
}

impl RTorrent {
    /// The address, as given.
    pub closed spec fn address(self) -> Seq<char> {
        self.url@
    }

    /// A client of the remote end at `url`, kept verbatim.
    pub fn new(url: String) -> (r: Self)
        ensures
            r.address() == url@,
    {
        RTorrent { url }
    }

    /// The address of the remote end.
    pub fn url(&self) -> (r: &str)
        ensures
            r@ == self.address(),
    {
        self.url.as_str()
    }

    /// Decodes the answer to `Query::BindAddress`: a string holding a
    /// dotted-decimal IPv4 address.
    pub fn ip(reply: &Reply) -> (r: Result<Ipv4, RpcError>)
        ensures
            match r {
                Ok(x) => reply.text() == Some(x.text()),
                Err(RpcError::UnexpectedShape(k)) => reply.text() is None && k == Expected::Text,
                Err(RpcError::NotAnAddress(s)) => reply.text() == Some(s@)
                    && forall|x: Ipv4| s@ != #[trigger] x.text(),
                Err(_) => false,
            },
    {
        let s = reply.as_text()?;
        match parse_ipv4(s.as_str()) {
            Some(x) => Ok(x),
            None => Err(RpcError::NotAnAddress(s)),
        }
    }

    /// Decodes the answer to `Query::Hostname`: a string.
    pub fn name(reply: &Reply) -> (r: Result<String, RpcError>)
        ensures
            match r {
                Ok(s) => reply.text() == Some(s@),
                Err(e) => reply.text() is None && e == RpcError::UnexpectedShape(Expected::Text),
            },
    {
        reply.as_text()
    }

    /// Decodes the answer to `Query::DownTotal`: an integer.
    pub fn down_total(reply: &Reply) -> (r: Result<i64, RpcError>)
        ensures
            match r {
                Ok(n) => reply.integer() == Some(n),
                Err(e) => reply.integer() is None && e == RpcError::UnexpectedShape(
                    Expected::Integer,
                ),
            },
    {
        reply.as_int()
    }

    /// Decodes the answer to `Query::DownRate`: an integer.
    pub fn down_rate(reply: &Reply) -> (r: Result<i64, RpcError>)
        ensures
            match r {
                Ok(n) => reply.integer() == Some(n),
                Err(e) => reply.integer() is None && e == RpcError::UnexpectedShape(
                    Expected::Integer,
                ),
            },
    {
        reply.as_int()
    }

    /// Decodes the answer to `Query::UpTotal`: an integer.
    pub fn up_total(reply: &Reply) -> (r: Result<i64, RpcError>)
        ensures
            match r {
                Ok(n) => reply.integer() == Some(n),
                Err(e) => reply.integer() is None && e == RpcError::UnexpectedShape(
                    Expected::Integer,
                ),
            },
    {
        reply.as_int()
    }

    /// Decodes the answer to `Query::UpRate`: an integer.
    pub fn up_rate(reply: &Reply) -> (r: Result<i64, RpcError>)
        ensures
            match r {
                Ok(n) => reply.integer() == Some(n),
                Err(e) => reply.integer() is None && e == RpcError::UnexpectedShape(
                    Expected::Integer,
                ),
            },
    {
        reply.as_int()
    }

    /// Decodes the answer to `Query::Torrents`: an array of rows, one item
    /// per row, in the order of the answer.
    pub fn get_torrents(reply: &Reply) -> (r: Result<Vec<Torrent>, RpcError>)
        ensures
            match r {
                Ok(ts) => reply.list() is Some && ts@.len() == reply.list().unwrap().len()
                    && forall|i: int|
                    0 <= i < ts@.len() ==> row_matches(reply.list().unwrap()[i], #[trigger] ts@[i]),
                Err(RpcError::UnexpectedShape(Expected::List)) => reply.list() is None,
                Err(RpcError::UnexpectedShape(Expected::Row)) => reply.list() is Some && exists|
                    i: int,
                |
                    0 <= i < reply.list().unwrap().len() && !is_row(
                        #[trigger] reply.list().unwrap()[i],
                    ),
                Err(_) => false,
            },
    {
        let rows = match reply {
            Reply::List(rows) => rows,
            _ => return Err(RpcError::UnexpectedShape(Expected::List)),
        };
        let mut ts: Vec<Torrent> = Vec::new();
        let mut i: usize = 0;
        while i < rows.len()
            invariant
                reply.list() == Some(rows@),
                i <= rows@.len(),
                ts@.len() == i,
                forall|j: int| 0 <= j < i ==> row_matches(rows@[j], #[trigger] ts@[j]),
            decreases rows@.len() - i,
        {
            match read_row(&rows[i]) {
                Ok(t) => ts.push(t),
                Err(_) => {
                    assert(!is_row(reply.list().unwrap()[i as int]));
                    return Err(RpcError::UnexpectedShape(Expected::Row));
                },
            }
            i = i + 1;
        }
        Ok(ts)
    }

    /// The queries behind `get_status`, in the order of its arguments.
    pub fn status_queries(torrent: &Torrent) -> (r: Vec<Query>)
        ensures
            r@.len() == 4,
            r@[0] == Query::Complete(torrent.hash),
            r@[1] == Query::CompletedBytes(torrent.hash),
            r@[2] == Query::ItemDownRate(torrent.hash),
            r@[3] == Query::ItemUpRate(torrent.hash),
    {
        let mut r: Vec<Query> = Vec::new();
        r.push(Query::Complete(torrent.hash.clone()));
        r.push(Query::CompletedBytes(torrent.hash.clone()));
        r.push(Query::ItemDownRate(torrent.hash.clone()));
        r.push(Query::ItemUpRate(torrent.hash.clone()));
        r
    }

    /// Decodes the answers to the four status queries of one item. The
    /// ratio is taken from the download rate.
    pub fn get_status(complete: &Reply, completed_bytes: &Reply, down_rate: &Reply, up_rate: &Reply)
        -> (r: Result<Status, RpcError>)
        ensures
            match r {
                Ok(st) => {
                    &&& complete.integer() matches Some(c) && st.completed == (c > 0)
                    &&& completed_bytes.integer() == Some(st.completed_bytes)
                    &&& down_rate.integer() == Some(st.down_rate)
                    &&& up_rate.integer() == Some(st.up_rate)
                    &&& st.ratio_milli == st.down_rate
                },
                Err(e) => e == RpcError::UnexpectedShape(Expected::Integer) && (
                complete.integer() is None || completed_bytes.integer() is None
                    || down_rate.integer() is None || up_rate.integer() is None),
            },
    {
        let c = complete.as_int()?;
        let completed_bytes = completed_bytes.as_int()?;
        let down_rate = down_rate.as_int()?;
        let up_rate = up_rate.as_int()?;
        Ok(Status { completed: c > 0, completed_bytes, down_rate, up_rate, ratio_milli: down_rate })
    }
}

} // verus!
