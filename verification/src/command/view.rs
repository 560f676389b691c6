use crate::data::common::Protocol;
use crate::data::db::{is_record_of, BrokerDB, Credentials, Tls};
use vstd::prelude::*;

verus! {

/// The brokers as the user interface lists them.
#[derive(Debug, Clone)]
pub struct BrokerList {
    pub brokers: Vec<BrokerView>,
}

/// A broker as the user interface shows and edits it.
#[derive(Debug, Clone)]
pub struct BrokerView {
    pub id: usize,
    pub name: String,
    pub client_id: String,
    pub addr: String,
    pub port: u16,
    pub auto_connect: bool,
    pub credential: bool,
    pub user_name: String,
    pub password: String,
    pub version: Protocol,
    pub tls: TlsView,
    pub self_signed_ca: String,
    pub params: String,
}

/// The kind of TLS a broker connection uses, as the user interface names it.
#[derive(Debug, Clone, Copy, PartialEq, Eq, Structural)]
pub enum TlsView {
    NoTls,
    Ca,
    Insecurity,
    SelfSigned,
}

/// `v` is the view of the stored broker `db`: the same fields; the credentials
/// spread over a flag, a user name and a password (empty when there are
/// none); the TLS kind beside the path of a self-signed CA (empty unless the
/// kind is self-signed).
pub open spec fn is_view_of(db: BrokerDB, v: BrokerView) -> bool {
    &&& v.id == db.id
    &&& v.version == db.protocol
    &&& v.client_id == db.client_id
    &&& v.name == db.name
    &&& v.addr == db.addr
    &&& v.port == db.port
    &&& v.params == db.params
    &&& v.auto_connect == db.auto_connect
    &&& match db.credentials {
        Credentials::NoCredentials => !v.credential && v.user_name@ == Seq::<char>::empty()
            && v.password@ == Seq::<char>::empty(),
        Credentials::Credentials { user_name, password } => v.credential && v.user_name
            == user_name && v.password == password,
    }
    &&& match db.tls {
        Tls::NoTls => v.tls == TlsView::NoTls && v.self_signed_ca@ == Seq::<char>::empty(),
        Tls::Ca => v.tls == TlsView::Ca && v.self_signed_ca@ == Seq::<char>::empty(),
        Tls::Insecurity => v.tls == TlsView::Insecurity && v.self_signed_ca@ == Seq::<
            char,
        >::empty(),
        Tls::SelfSigned { self_signed_ca } => v.tls == TlsView::SelfSigned && v.self_signed_ca
            == self_signed_ca,
    }
}

impl BrokerView {
    /// The view of a stored broker; its histories are left out.
    pub fn from(value: BrokerDB) -> (r: Self)
        ensures
            is_view_of(value, r),
    {
        let BrokerDB {
            id,
            protocol,
            client_id,
            name,
            addr,
            port,
            params,
            credentials,
            auto_connect,
            tls,
            ..
        } = value;
        let (credential, user_name, password) = match credentials {
            Credentials::NoCredentials => (false, String::new(), String::new()),
            Credentials::Credentials { user_name, password } => (true, user_name, password),
        };
        let (tls, self_signed_ca) = match tls {
            Tls::NoTls => (TlsView::NoTls, String::new()),
            Tls::Ca => (TlsView::Ca, String::new()),
            Tls::Insecurity => (TlsView::Insecurity, String::new()),
            Tls::SelfSigned { self_signed_ca } => (TlsView::SelfSigned, self_signed_ca),
        };
        Self {
            id,
            version: protocol,
            name,
            port,
            auto_connect,
            credential,
            user_name,
            password,
            tls,
            self_signed_ca,
            addr,
            client_id,
            params,
        }
    }
}


/// An edited broker in the shape that storing keeps whole: no user name or
/// password without the credential flag, no CA path unless the TLS kind is
/// self-signed.
pub open spec fn normalized(v: BrokerView) -> bool {
    &&& !v.credential ==> v.user_name@ == Seq::<char>::empty() && v.password@ == Seq::<
        char,
    >::empty()
    &&& v.tls != TlsView::SelfSigned ==> v.self_signed_ca@ == Seq::<char>::empty()
}

/// Storing an edited broker and viewing the record gives back the edited
/// broker, when it is in the shape that storing keeps whole.
pub proof fn law_view_of_record(v: BrokerView, db: BrokerDB, v2: BrokerView)
    requires
        normalized(v),
        is_record_of(v, db),
        is_view_of(db, v2),
    ensures
        v2.id == v.id,
        v2.name == v.name,
        v2.client_id == v.client_id,
        v2.addr == v.addr,
        v2.port == v.port,
        v2.auto_connect == v.auto_connect,
        v2.credential == v.credential,
        v2.user_name@ == v.user_name@,
        v2.password@ == v.password@,
        v2.version == v.version,
        v2.tls == v.tls,
        v2.self_signed_ca@ == v.self_signed_ca@,
        v2.params == v.params,
{
}

/// Viewing a stored broker and storing the view gives back its settings,
/// with empty histories.
pub proof fn law_record_of_view(db: BrokerDB, v: BrokerView, db2: BrokerDB)
    requires
        is_view_of(db, v),
        is_record_of(v, db2),
    ensures
        db2.same_settings(db),
        db2.subscribe_his@.len() == 0,
        db2.publish_his@.len() == 0,
{
}

/// Storing an edited broker keeps each of its settings in the field of the
/// same meaning: the id, protocol version, client id, name, address, port,
/// parameters and reconnection flag of the record are those of the edited
/// broker, field for field; the credentials are its user name and password
/// exactly when its credential flag is set; the TLS kind is its kind, with
/// its CA path for a self-signed one; the histories are empty.
pub proof fn law_record_keeps_fields(v: BrokerView, db: BrokerDB)
    requires
        is_record_of(v, db),
    ensures
        db.id == v.id,
        db.protocol == v.version,
        db.client_id@ == v.client_id@,
        db.name@ == v.name@,
        db.addr@ == v.addr@,
        db.port == v.port,
        db.params@ == v.params@,
        db.auto_connect == v.auto_connect,
        v.credential ==> (db.credentials matches Credentials::Credentials { user_name, password }
            && user_name@ == v.user_name@ && password@ == v.password@),
        !v.credential ==> db.credentials is NoCredentials,
        v.tls is NoTls ==> db.tls is NoTls,
        v.tls is Ca ==> db.tls is Ca,
        v.tls is Insecurity ==> db.tls is Insecurity,
        v.tls is SelfSigned ==> (db.tls matches Tls::SelfSigned { self_signed_ca }
            && self_signed_ca@ == v.self_signed_ca@),
        db.subscribe_his@.len() == 0,
        db.publish_his@.len() == 0,
{
}

/// Viewing a stored broker keeps each of its settings in the field of the
/// same meaning: the id, protocol version, client id, name, address, port,
/// parameters and reconnection flag of the view are those of the record,
/// field for field; the credential flag is set, with the user name and
/// password, exactly when the record has credentials (else both are empty);
/// the TLS kind is the record's, with the CA path only for a self-signed one.
pub proof fn law_view_keeps_fields(db: BrokerDB, v: BrokerView)
    requires
        is_view_of(db, v),
    ensures
        v.id == db.id,
        v.version == db.protocol,
        v.client_id@ == db.client_id@,
        v.name@ == db.name@,
        v.addr@ == db.addr@,
        v.port == db.port,
        v.params@ == db.params@,
        v.auto_connect == db.auto_connect,
        db.credentials matches Credentials::Credentials { user_name, password } ==> (v.credential
            && v.user_name@ == user_name@ && v.password@ == password@),
        db.credentials is NoCredentials ==> (!v.credential && v.user_name@.len() == 0
            && v.password@.len() == 0),
        db.tls is NoTls ==> (v.tls is NoTls && v.self_signed_ca@.len() == 0),
        db.tls is Ca ==> (v.tls is Ca && v.self_signed_ca@.len() == 0),
        db.tls is Insecurity ==> (v.tls is Insecurity && v.self_signed_ca@.len() == 0),
        db.tls matches Tls::SelfSigned { self_signed_ca } ==> (v.tls is SelfSigned
            && v.self_signed_ca@ == self_signed_ca@),
{
}

} // verus!
