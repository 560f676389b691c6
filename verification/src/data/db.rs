use crate::command::view::{BrokerView, TlsView};
use crate::data::common::{Broker, Protocol, PublishHis, SubscribeHis};
use crate::util::db::ArcDb;
use vstd::prelude::*;

verus! {

/// A key of the store.
#[derive(Debug, Clone, Copy, PartialEq, Eq, Structural)]
pub enum DbKey {
    Broker(usize),
    SubscribeHis(usize),
}

impl DbKey {
    /// The key under which the broker `id` is stored.
    pub fn broker_key(id: usize) -> (r: Self)
        ensures
            r == DbKey::Broker(id),
    {
        Self::Broker(id)
    }
}

/// A broker as it is stored, with its subscribe and publish histories.
#[derive(Debug)]
pub struct BrokerDB {
    pub id: usize,
    pub protocol: Protocol,
    pub client_id: String,
    pub name: String,
    pub addr: String,
    pub port: u16,
    pub params: String,
    pub credentials: Credentials,
    pub auto_connect: bool,
    pub tls: Tls,
    pub subscribe_his: Vec<SubscribeHis>,
    pub publish_his: Vec<PublishHis>,
}

impl BrokerDB {
    /// `self` and `other` hold the same broker: the same fields, and the same
    /// histories entry by entry.
    pub open spec fn same(self, other: BrokerDB) -> bool {
        &&& self.same_settings(other)
        &&& self.subscribe_his@ == other.subscribe_his@
        &&& self.publish_his@ == other.publish_his@
    }

    /// `self` and `other` hold the same settings: every field but the
    /// histories.
    pub open spec fn same_settings(self, other: BrokerDB) -> bool {
        &&& self.id == other.id
        &&& self.protocol == other.protocol
        &&& self.client_id == other.client_id
        &&& self.name == other.name
        &&& self.addr == other.addr
        &&& self.port == other.port
        &&& self.params == other.params
        &&& self.credentials == other.credentials
        &&& self.auto_connect == other.auto_connect
        &&& self.tls == other.tls
    }

    /// The broker together with the store ledger it is saved through.
    pub fn into_broker(self, db: ArcDb) -> (r: Broker)
        ensures
            r.data == self,
            r.db == db,
    {
        Broker { data: self, db }
    }
}

impl Clone for BrokerDB {
    fn clone(&self) -> (r: Self)
        ensures
            r.same(*self),
    {
        BrokerDB {
            id: self.id,
            protocol: self.protocol,
            client_id: self.client_id.clone(),
            name: self.name.clone(),
            addr: self.addr.clone(),
            port: self.port,
            params: self.params.clone(),
            credentials: self.credentials.clone(),
            auto_connect: self.auto_connect,
            tls: self.tls.clone(),
            subscribe_his: self.subscribe_his.clone(),
            publish_his: self.publish_his.clone(),
        }
    }
}

/// `db` is the stored form of the edited broker `v`: the same fields, the
/// user name and password kept only when the credential flag is set, the CA
/// path kept only for a self-signed TLS, and empty histories.
pub open spec fn is_record_of(v: BrokerView, db: BrokerDB) -> bool {
    &&& db.id == v.id
    &&& db.protocol == v.version
    &&& db.client_id == v.client_id
    &&& db.name == v.name
    &&& db.addr == v.addr
    &&& db.port == v.port
    &&& db.params == v.params
    &&& db.auto_connect == v.auto_connect
    &&& db.credentials == (if v.credential {
        Credentials::Credentials { user_name: v.user_name, password: v.password }
    } else {
        Credentials::NoCredentials
    })
    &&& db.tls == match v.tls {
        TlsView::NoTls => Tls::NoTls,
        TlsView::Ca => Tls::Ca,
        TlsView::Insecurity => Tls::Insecurity,
        TlsView::SelfSigned => Tls::SelfSigned { self_signed_ca: v.self_signed_ca },
    }
    &&& db.subscribe_his@ == Seq::<SubscribeHis>::empty()
    &&& db.publish_his@ == Seq::<PublishHis>::empty()
}

impl BrokerDB {
    /// The stored form of an edited broker, with empty histories.
    pub fn from(value: BrokerView) -> (r: Self)
        ensures
            is_record_of(value, r),
    {
        let BrokerView {
            id,
            name,
            client_id,
            addr,
            port,
            auto_connect,
            credential,
            user_name,
            password,
            version,
            tls,
            self_signed_ca,
            params,
        } = value;
        let credentials = if credential {
            Credentials::Credentials { user_name, password }
        } else {
            Credentials::NoCredentials
        };
        let tls = match tls {
            TlsView::NoTls => Tls::NoTls,
            TlsView::Ca => Tls::Ca,
            TlsView::Insecurity => Tls::Insecurity,
            TlsView::SelfSigned => Tls::SelfSigned { self_signed_ca },
        };
        Self {
            id,
            protocol: version,
            client_id,
            name,
            addr,
            port,
            params,
            credentials,
            auto_connect,
            tls,
            subscribe_his: Vec::new(),
            publish_his: Vec::new(),
        }
    }
}

/// How a client authenticates to a broker.
#[derive(Debug)]
pub enum Credentials {
    NoCredentials,
    Credentials { user_name: String, password: String },
}

impl Clone for Credentials {
    fn clone(&self) -> (r: Self)
        ensures
            r == *self,
    {
        match self {
            Credentials::NoCredentials => Credentials::NoCredentials,
            Credentials::Credentials { user_name, password } => Credentials::Credentials {
                user_name: user_name.clone(),
                password: password.clone(),
            },
        }
    }
}

/// The TLS a broker connection uses.
#[derive(Debug)]
pub enum Tls {
    NoTls,
    Ca,
    Insecurity,
    SelfSigned { self_signed_ca: String },
}

impl Clone for Tls {
    fn clone(&self) -> (r: Self)
        ensures
            r == *self,
    {
        match self {
            Tls::NoTls => Tls::NoTls,
            Tls::Ca => Tls::Ca,
            Tls::Insecurity => Tls::Insecurity,
            Tls::SelfSigned { self_signed_ca } => Tls::SelfSigned {
                self_signed_ca: self_signed_ca.clone(),
            },
        }
    }
}

impl Tls {
    /// The name of the TLS kind: "none", "ca", "insecurity" or "self signed".
    pub fn to_string(&self) -> (r: String)
        ensures
            r@ == match self {
                Tls::NoTls => "none"@,
                Tls::Ca => "ca"@,
                Tls::Insecurity => "insecurity"@,
                Tls::SelfSigned { .. } => "self signed"@,
            },
    {
        match self {
            Tls::NoTls => "none".to_string(),
            Tls::Ca => "ca".to_string(),
            Tls::Insecurity => "insecurity".to_string(),
            Tls::SelfSigned { .. } => "self signed".to_string(),
        }
    }
}

} // verus!
