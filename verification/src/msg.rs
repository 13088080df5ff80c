use vstd::prelude::*;

verus! {

/// The instantiation payload: the initial bytes of the record.
pub struct InstantiateMsg {
    pub data: Vec<u8>,
}

/// The mutating operations, one variant per handler.
pub enum ExecuteMsg {
    Write { data: Vec<u8> },
    AddAdmin { admin: String },
    RemoveAdmin { admin: String },
}

/// The read operations.
pub enum QueryMsg {
    GetData {},
    GetAdmins {},
}

/// The answer to `GetData`: the stored payload.
#[derive(Clone, Debug, PartialEq, Eq)]
pub struct GetWriteResponse {
    pub data: Vec<u8>,
}

/// The answer to `GetAdmins`: the stored admin identities, in order.
#[derive(Clone, Debug, PartialEq, Eq)]
pub struct GetAdminResponse {
    pub admins: Vec<String>,
}

/// The answer a query returns, one variant per read operation.
#[derive(Clone, Debug, PartialEq, Eq)]
pub enum QueryAnswer {
    Data(GetWriteResponse),
    Admins(GetAdminResponse),
}

/// One key/value pair of a success descriptor.
#[derive(Clone, Debug, PartialEq, Eq)]
pub struct Attribute {
    pub key: String,
    pub value: String,
}

impl View for Attribute {
    type V = (Seq<char>, Seq<char>);

    open spec fn view(&self) -> (Seq<char>, Seq<char>) {
        (self.key@, self.value@)
    }
}

/// The descriptor a successful mutation returns: key/value attributes that
/// describe what happened, for observability.
#[derive(Clone, Debug, PartialEq, Eq)]
pub struct Response {
    pub attributes: Vec<Attribute>,
}

impl View for Response {
    type V = Seq<(Seq<char>, Seq<char>)>;

    open spec fn view(&self) -> Seq<(Seq<char>, Seq<char>)> {
        self.attributes@.map_values(|a: Attribute| a@)
    }
}

/// The attributes instantiation reports: the method and the first admin.
pub open spec fn instantiate_attrs(admin: Seq<char>) -> Seq<(Seq<char>, Seq<char>)> {
    seq![("method"@, "instantiate"@), ("admin"@, admin)]
}

/// The attributes a successful write reports.
pub open spec fn write_attrs() -> Seq<(Seq<char>, Seq<char>)> {
    seq![("action"@, "update"@)]
}

/// The attributes a successful admin addition reports.
pub open spec fn add_admin_attrs(admin: Seq<char>) -> Seq<(Seq<char>, Seq<char>)> {
    seq![("action"@, "add_admin"@), ("new_admin"@, admin)]
}

/// The attributes a successful admin removal reports.
pub open spec fn remove_admin_attrs(admin: Seq<char>) -> Seq<(Seq<char>, Seq<char>)> {
    seq![("action"@, "remove_admin"@), ("removed_admin"@, admin)]
}

} // verus!
