//! Looking up an application's FCM key in the database.
use vstd::prelude::*;
use crate::common::text::{parse_i32, parsed_i32, join2};

verus! {

/// Why no key was found.
#[derive(Debug, Clone, PartialEq, Eq)]
pub enum CertificateError {
    /// The database failed, with its message.
    Postgres(String),
    /// No enabled web application has this id.
    NotFoundError(String),
    /// The id is no number.
    ApplicationIdError(String),
    /// The details did not change since they were last read.
    NotChanged(String),
}

/// The query that reads the FCM key of an application.
pub const GCM_API_KEY_QUERY: &'static str = "SELECT gcm_api_key FROM web_applications web INNER JOIN applications app on app.id = web.application_id WHERE web.application_id = $1 AND web.enabled IS TRUE AND app.deleted_at IS NULL";

/// The registry; `P` is its database connection pool.
pub struct CertificateRegistry<P> {
    pub pool: P,
}


impl<P> CertificateRegistry<P> {
    /// A registry over `pool`.
    pub fn new(pool: P) -> (r: CertificateRegistry<P>)
        ensures
            r.pool == pool,
    {
        CertificateRegistry { pool }
    }

    /// Looks up the FCM key of `application` and hands it to `f`: the id
    /// must be a number; `query` runs the lookup for it on the pool and
    /// gives one optional key per row, or the database's error message;
    /// without rows the key is not found.
    pub fn fetch<F, T, Q>(&self, application: &str, query: Q, f: F) -> (r: Result<T, CertificateError>)
        where
            Q: FnOnce(&P, i32) -> Result<Vec<Option<String>>, String>,
            F: FnOnce(Option<String>) -> T,
        requires
            forall|id: i32| query.requires((&self.pool, id)),
            forall|k: Option<String>| f.requires((k,)),
        ensures
            match parsed_i32(application@) {
                None => r matches Err(CertificateError::ApplicationIdError(m))
                    && m@ == "Invalid application_id: '"@ + application@ + "'"@,
                Some(id) => exists|rows: Result<Vec<Option<String>>, String>| {
                    &&& query.ensures((&self.pool, id), rows)
                    &&& match rows {
                        Err(e) => r == Err::<T, CertificateError>(CertificateError::Postgres(e)),
                        Ok(v) => if v@.len() == 0 {
                            r matches Err(CertificateError::NotFoundError(m))
                                && m@ == "Couldn't find a certificate for "@ + application@
                        } else {
                            r matches Ok(t) && f.ensures((v@[0],), t)
                        },
                    }
                },
            },
    {
        let id = match parse_i32(application) {
            Some(id) => id,
            None => {
                let m = join2("Invalid application_id: '", application);
                let m = join2(m.as_str(), "'");
                return Err(CertificateError::ApplicationIdError(m));
            },
        };
        let rows = query(&self.pool, id);
        match rows {
            Err(e) => Err(CertificateError::Postgres(e)),
            Ok(v) => {
                if v.len() == 0 {
                    Err(CertificateError::NotFoundError(join2("Couldn't find a certificate for ", application)))
                } else {
                    let first = match &v[0] {
                        Some(k) => Some(k.clone()),
                        None => None,
                    };
                    Ok(f(first))
                }
            },
        }
    }
}

} // verus!
