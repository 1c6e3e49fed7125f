use vstd::prelude::*;
use crate::patterns::{hex_bytes, hex_decode};
use crate::text::{concat, decimal, i64_to_string, push_str};

verus! {

/// The bot's account: its number and the MD5 digest of its password, in
/// hexadecimal.
pub struct Account {
    pub uin: i64,
    pub password_md5: String,
}

/// Where the MongoDB server is, and which database to use.
pub struct Mongo {
    pub host: String,
    pub port: u32,
    pub database: String,
}

/// Where the Redis server is.
pub struct Redis {
    pub host: String,
    pub port: i32,
}

/// The bot's configuration, kept in `bot.yml`.
pub struct Config {
    pub account: Account,
    pub mongo: Mongo,
    pub redis: Redis,
}

/// The account number of the configuration written when there is none,
/// which must be changed before the bot runs.
pub open spec fn placeholder_uin() -> i64 {
    123456789
}

/// The configuration written when there is none.
pub fn default_config() -> (r: Config)
    ensures
        r.account.uin == placeholder_uin(),
        r.account.password_md5@ == "echo -n password | md5"@,
        r.mongo.host@ == "127.0.0.1"@,
        r.mongo.port == 27017,
        r.mongo.database@ == "bot"@,
        r.redis.host@ == "127.0.0.1"@,
        r.redis.port == 6379,
{
    Config {
        account: Account { uin: 123456789, password_md5: "echo -n password | md5".to_owned() },
        mongo: Mongo { host: "127.0.0.1".to_owned(), port: 27017, database: "bot".to_owned() },
        redis: Redis { host: "127.0.0.1".to_owned(), port: 6379 },
    }
}

/// Whether the configuration still holds the placeholder account, so that
/// the bot asks for `bot.yml` to be edited and stops.
pub fn needs_editing(config: &Config) -> (r: bool)
    ensures
        r == (config.account.uin == placeholder_uin()),
{
    config.account.uin == 123456789
}

/// The address of the MongoDB database.
pub fn mongo_url(m: &Mongo) -> (r: String)
    ensures
        r@ == "mongodb://"@ + m.host@ + ":"@ + decimal(m.port as int) + "/"@ + m.database@
            + "?w=majority"@,
{
    let mut r = concat("mongodb://", m.host.as_str());
    push_str(&mut r, ":");
    push_str(&mut r, i64_to_string(m.port as i64).as_str());
    push_str(&mut r, "/");
    push_str(&mut r, m.database.as_str());
    push_str(&mut r, "?w=majority");
    r
}

/// The address of the Redis server.
pub fn redis_url(r: &Redis) -> (u: String)
    ensures
        u@ == "redis://"@ + r.host@ + ":"@ + decimal(r.port as int) + "/"@,
{
    let mut u = concat("redis://", r.host.as_str());
    push_str(&mut u, ":");
    push_str(&mut u, i64_to_string(r.port as i64).as_str());
    push_str(&mut u, "/");
    u
}

/// The password's digest written in `hex` (the template's `main`): sixteen
/// bytes, or the decoder's error when the text is not hexadecimal. A text
/// that decodes to another length is left out: the program stops there.
pub fn password_md5(hex: &str) -> (r: Result<[u8; 16], String>)
    requires
        hex_bytes(hex@) matches Some(b) ==> b.len() == 16,
    ensures
        match hex_bytes(hex@) {
            Some(b) => r matches Ok(a) && a@ == b,
            None => r is Err,
        },
{
    match hex_decode(hex) {
        Ok(v) => {
            let mut a = [0u8; 16];
            let mut i: usize = 0;
            while i < 16
                invariant
                    v@.len() == 16,
                    i <= 16,
                    forall|j: int| 0 <= j < i ==> a@[j] == v@[j],
                decreases 16 - i,
            {
                a[i] = v[i];
                i = i + 1;
            }
            assert(a@ =~= v@);
            Ok(a)
        },
        Err(e) => Err(e),
    }
}

} // verus!
