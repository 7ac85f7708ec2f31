use vstd::prelude::*;

verus! {

/// SSL modes understood by libmysqlclient's `MYSQL_OPT_SSL_MODE` option.
#[derive(Debug, Clone, Copy, Hash, PartialEq, Eq, Structural)]
pub enum mysql_ssl_mode {
    SSL_MODE_DISABLED,
    SSL_MODE_PREFERRED,
    SSL_MODE_REQUIRED,
    SSL_MODE_VERIFY_CA,
    SSL_MODE_VERIFY_IDENTITY,
}

impl mysql_ssl_mode {
    /// The numeric code that the C library uses for this mode.
    pub open spec fn spec_code(self) -> u32 {
        match self {
            mysql_ssl_mode::SSL_MODE_DISABLED => 1,
            mysql_ssl_mode::SSL_MODE_PREFERRED => 2,
            mysql_ssl_mode::SSL_MODE_REQUIRED => 3,
            mysql_ssl_mode::SSL_MODE_VERIFY_CA => 4,
            mysql_ssl_mode::SSL_MODE_VERIFY_IDENTITY => 5,
        }
    }

    /// Returns the numeric code that the C library uses for this mode.
    pub fn code(self) -> (r: u32)
        ensures
            r == self.spec_code(),
    {
        match self {
            mysql_ssl_mode::SSL_MODE_DISABLED => 1,
            mysql_ssl_mode::SSL_MODE_PREFERRED => 2,
            mysql_ssl_mode::SSL_MODE_REQUIRED => 3,
            mysql_ssl_mode::SSL_MODE_VERIFY_CA => 4,
            mysql_ssl_mode::SSL_MODE_VERIFY_IDENTITY => 5,
        }
    }

    /// The mode whose numeric code is `code`, if there is one.
    pub open spec fn spec_from_code(code: u32) -> Option<mysql_ssl_mode> {
        if code == 1 {
            Some(mysql_ssl_mode::SSL_MODE_DISABLED)
        } else if code == 2 {
            Some(mysql_ssl_mode::SSL_MODE_PREFERRED)
        } else if code == 3 {
            Some(mysql_ssl_mode::SSL_MODE_REQUIRED)
        } else if code == 4 {
            Some(mysql_ssl_mode::SSL_MODE_VERIFY_CA)
        } else if code == 5 {
            Some(mysql_ssl_mode::SSL_MODE_VERIFY_IDENTITY)
        } else {
            None
        }
    }

    /// Returns the mode whose numeric code is `code`, if there is one.
    pub fn from_code(code: u32) -> (r: Option<mysql_ssl_mode>)
        ensures
            r == Self::spec_from_code(code),
    {
        if code == 1 {
            Some(mysql_ssl_mode::SSL_MODE_DISABLED)
        } else if code == 2 {
            Some(mysql_ssl_mode::SSL_MODE_PREFERRED)
        } else if code == 3 {
            Some(mysql_ssl_mode::SSL_MODE_REQUIRED)
        } else if code == 4 {
            Some(mysql_ssl_mode::SSL_MODE_VERIFY_CA)
        } else if code == 5 {
            Some(mysql_ssl_mode::SSL_MODE_VERIFY_IDENTITY)
        } else {
            None
        }
    }
}

/// The numeric codes identify the modes: each mode is found again from its code, the codes
/// of two modes differ, and exactly the codes 1 to 5 belong to a mode.
pub proof fn lemma_ssl_mode_codes(m: mysql_ssl_mode, n: mysql_ssl_mode, code: u32)
    ensures
        mysql_ssl_mode::spec_from_code(m.spec_code()) == Some(m),
        m.spec_code() == n.spec_code() ==> m == n,
        1 <= m.spec_code() <= 5,
        mysql_ssl_mode::spec_from_code(code) matches Some(k) ==> k.spec_code() == code,
        mysql_ssl_mode::spec_from_code(code) is Some <==> 1 <= code <= 5,
{
}

} // verus!
