use vstd::prelude::*;
use vstd::string::*;

verus! {

/// The place of the one database client that all requests share.
///
/// It starts empty, is filled at most once, and is never emptied or
/// refilled: what a request finds there, every later request finds too.
pub struct ConnectionCell<C> {
    client: Option<C>,
}

/// How the attempt to reach the database at startup ended.
pub enum ConnectOutcome<C> {
    /// A client was built.
    Connected(C),
    /// The connection options were accepted, but no client could be built
    /// from them; the text is the driver's message.
    ClientFailed(String),
    /// The connection string could not be read as options; the text is the
    /// driver's message.
    OptionsFailed(String),
}

impl<C> ConnectionCell<C> {
    /// The client in the cell, if there is one.
    pub closed spec fn client(&self) -> Option<C> {
        self.client
    }

    /// A client is in the cell.
    pub open spec fn is_connected(&self) -> bool {
        self.client() is Some
    }

    /// An empty cell.
    pub fn new() -> (cell: Self)
        ensures
            cell.client() is None,
    {
        ConnectionCell { client: None }
    }
}

/// Records how the startup attempt ended.
///
/// A client goes into the cell if the cell is still empty; a cell that is
/// filled keeps what it has. A failure leaves the cell as it is and hands
/// back the line to report. Nothing is retried.
pub fn mongo_client<C>(cell: &mut ConnectionCell<C>, outcome: ConnectOutcome<C>) -> (report: Option<
    String,
>)
    ensures
        old(cell).client() is Some ==> final(cell).client() == old(cell).client(),
        old(cell).client() is None ==> final(cell).client() == (match outcome {
            ConnectOutcome::Connected(client) => Some(client),
            _ => None,
        }),
        match outcome {
            ConnectOutcome::Connected(_) => report is None,
            ConnectOutcome::ClientFailed(detail) => report is Some && report->0@ == "Error::>>"@
                + detail@,
            ConnectOutcome::OptionsFailed(detail) => report is Some && report->0@
                == "40 Error::>>"@ + detail@,
        },
{
    match outcome {
        ConnectOutcome::Connected(client) => {
            if cell.client.is_none() {
                cell.client = Some(client);
            }
            None
        },
        ConnectOutcome::ClientFailed(detail) => {
            let mut line = String::from_str("Error::>>");
            line.append(detail.as_str());
            Some(line)
        },
        ConnectOutcome::OptionsFailed(detail) => {
            let mut line = String::from_str("40 Error::>>");
            line.append(detail.as_str());
            Some(line)
        },
    }
}

/// Looks the shared client up. An empty cell, whether the startup attempt
/// failed or was never made, gives the error text `none 35`.
pub fn connect_db<'a, C>(cell: &'a ConnectionCell<C>) -> (found: Result<&'a C, String>)
    ensures
        match found {
            Ok(client) => cell.client() == Some(*client),
            Err(detail) => cell.client() is None && detail@ == "none 35"@,
        },
{
    match &cell.client {
        Some(client) => Ok(client),
        None => Err(String::from_str("none 35")),
    }
}

} // verus!
