//! The domain services: login and token decisions over fetched rows, the
//! affected-row rule for updates and deletes, and the exact statement text
//! each repository operation executes.
//!
//! The backing store is an outside collaborator: the caller fetches rows and
//! executes statements, and hands the plain results to these functions, which
//! make every decision.

use vstd::prelude::*;

verus! {

use vstd::string::StringExecFns;
use crate::dto::{DeviceHard, Firm, User};
use crate::sql_helper::{
    SqlHelper, delete_text, insert_text, order_desc_text, select_text, update_text, where_eq_text,
};
use crate::vo::{
    CustomError, VoAddFirm, VoDeviceHard, VoFirm, VoLogin, VoUpdateFirm, VoUpdateUser, VoUser,
    firm_projection, hard_projection, user_projection,
};

/// What `bcrypt::verify` returns for a password and a stored hash: `Ok(true)`
/// on a match, `Ok(false)` on a mismatch, an error when the hash cannot be
/// parsed.  The outcome depends on the two arguments alone.
pub uninterp spec fn bcrypt_outcome(password: Seq<char>, hash: Seq<char>) -> Result<bool, ()>;

/// Relies on `bcrypt::verify`: checks a plaintext password against a bcrypt
/// hash string; deterministic in its two arguments.
#[verifier::external_body]
fn bcrypt_verify(password: &str, hash: &str) -> (r: Result<bool, ()>)
    ensures
        r == bcrypt_outcome(password@, hash@),
{
    match bcrypt::verify(password, hash) {
        Ok(b) => Ok(b),
        Err(_) => Err(()),
    }
}

/// Whether `password` matches the bcrypt hash `hash`.
pub open spec fn password_matches(password: Seq<char>, hash: Seq<char>) -> bool {
    bcrypt_outcome(password, hash) == Ok::<bool, ()>(true)
}

/// The affected-row rule for updates and deletes: zero rows touched means the
/// target row did not exist, and the operation fails with `DataNotFound`;
/// touching any row succeeds.
pub fn require_row_affected(rows_affected: u64) -> (r: Result<(), CustomError>)
    ensures
        rows_affected > 0 ==> r == Ok::<(), CustomError>(()),
        rows_affected == 0 ==> r == Err::<(), CustomError>(CustomError::DataNotFound),
{
    if rows_affected > 0 {
        Ok(())
    } else {
        Err(CustomError::DataNotFound)
    }
}

/// What a login attempt returns for a fetched row and a supplied password:
/// the sanitized projection when the row exists and the password matches its
/// hash, and `MailOrPasswordFail` otherwise — a missing row and a wrong
/// password are indistinguishable.
pub open spec fn login_result(row: Option<User>, password: Seq<char>) -> Result<
    VoUser,
    CustomError,
> {
    match row {
        Option::None => Err(CustomError::MailOrPasswordFail),
        Option::Some(u) => if password_matches(password, u.password@) {
            Ok(user_projection(u))
        } else {
            Err(CustomError::MailOrPasswordFail)
        },
    }
}

/// The parameters of the statement a password change executes: the new hash
/// column value and the bumped `update_time`, keyed by the user id.
pub struct PasswordChange {
    pub id: i32,
    pub new_password: String,
    pub update_time: i64,
}

/// What a password change decides for a fetched row: the statement parameters
/// when the supplied old password matches, `PasswordError` when it does not,
/// and `MailOrPasswordFail` when the row is missing.
pub open spec fn change_pass_result(row: Option<User>, data: VoUpdateUser, now: i64) -> Result<
    PasswordChange,
    CustomError,
> {
    match row {
        Option::None => Err(CustomError::MailOrPasswordFail),
        Option::Some(u) => if password_matches(data.old_pass@, u.password@) {
            Ok(PasswordChange { id: u.id, new_password: data.new_pass, update_time: now })
        } else {
            Err(CustomError::PasswordError)
        },
    }
}

/// What a token check returns for a fetched row and the ticker carried by the
/// token: the row when its `update_time` still equals the ticker, and
/// `TokenError` otherwise.
pub open spec fn check_token_result(row: Option<User>, ticker: i64) -> Result<User, CustomError> {
    match row {
        Option::None => Err(CustomError::TokenError),
        Option::Some(u) => if ticker == u.update_time {
            Ok(u)
        } else {
            Err(CustomError::TokenError)
        },
    }
}

/// Login, password change and token validation.
pub struct UserService;

impl UserService {
    /// The statement that fetches the login row by mail.
    pub fn login_sql(&self) -> (r: String)
        ensures
            r@ == select_text("user"@, "id, name, mail, password, update_time"@) + where_eq_text(
                "mail"@,
                false,
            ),
    {
        SqlHelper::query("user", "id, name, mail, password, update_time").and_where_eq(
            "mail",
        ).sql()
    }

    /// The statement that fetches a user row by id, for password changes and
    /// token checks.
    pub fn user_by_id_sql(&self) -> (r: String)
        ensures
            r@ == select_text("user"@, "id, name, mail, password, update_time"@) + where_eq_text(
                "id"@,
                false,
            ),
    {
        SqlHelper::query("user", "id, name, mail, password, update_time").and_where_eq("id").sql()
    }

    /// Decides a login attempt over the row fetched by mail.
    pub fn login(&self, row: Option<User>, data: &VoLogin) -> (r: Result<VoUser, CustomError>)
        ensures
            r == login_result(row, data.password@),
    {
        match row {
            Option::None => Err(CustomError::MailOrPasswordFail),
            Option::Some(u) => {
                let password_ok = match bcrypt_verify(data.password.as_str(), u.password.as_str()) {
                    Ok(true) => true,
                    _ => false,
                };
                self.login_verified(u, password_ok)
            },
        }
    }

    /// Turns a fetched user row and a password-check outcome into the login
    /// response: the sanitized projection on success, `MailOrPasswordFail`
    /// otherwise.
    pub fn login_verified(&self, user: User, password_ok: bool) -> (r: Result<VoUser, CustomError>)
        ensures
            password_ok ==> r == Ok::<VoUser, CustomError>(user_projection(user)),
            !password_ok ==> r == Err::<VoUser, CustomError>(CustomError::MailOrPasswordFail),
    {
        if password_ok {
            Ok(VoUser::from_user(user))
        } else {
            Err(CustomError::MailOrPasswordFail)
        }
    }

    /// Decides a password change over the re-fetched row: on success the
    /// caller executes `change_pass_sql` with the returned parameters.
    pub fn change_pass(&self, row: Option<User>, data: VoUpdateUser, now: i64) -> (r: Result<
        PasswordChange,
        CustomError,
    >)
        ensures
            r == change_pass_result(row, data, now),
    {
        match row {
            Option::None => Err(CustomError::MailOrPasswordFail),
            Option::Some(u) => {
                let password_ok = match bcrypt_verify(data.old_pass.as_str(), u.password.as_str()) {
                    Ok(true) => true,
                    _ => false,
                };
                self.change_pass_verified(u, password_ok, data, now)
            },
        }
    }

    /// Turns a fetched user row and a password-check outcome into the
    /// password-change decision.
    pub fn change_pass_verified(
        &self,
        user: User,
        password_ok: bool,
        data: VoUpdateUser,
        now: i64,
    ) -> (r: Result<PasswordChange, CustomError>)
        ensures
            password_ok ==> r == Ok::<PasswordChange, CustomError>(
                PasswordChange { id: user.id, new_password: data.new_pass, update_time: now },
            ),
            !password_ok ==> r == Err::<PasswordChange, CustomError>(CustomError::PasswordError),
    {
        if password_ok {
            Ok(PasswordChange { id: user.id, new_password: data.new_pass, update_time: now })
        } else {
            Err(CustomError::PasswordError)
        }
    }

    /// The statement a password change executes: it stores the new password
    /// and bumps `update_time` in one statement, keyed by id.
    pub fn change_pass_sql(&self) -> (r: String)
        ensures
            r@ == "UPDATE user SET password = ?, update_time = ? WHERE id = ?"@,
    {
        String::from_str("UPDATE user SET password = ?, update_time = ? WHERE id = ?")
    }

    /// Validates a previously issued token against the re-fetched row: the
    /// ticker must still equal the row's `update_time`, so any later change
    /// to the row invalidates every earlier token.
    pub fn check_token(&self, row: Option<User>, data: &VoUser) -> (r: Result<User, CustomError>)
        ensures
            r == check_token_result(row, data.ticker),
    {
        match row {
            Option::None => Err(CustomError::TokenError),
            Option::Some(u) => {
                if data.ticker == u.update_time {
                    Ok(u)
                } else {
                    Err(CustomError::TokenError)
                }
            },
        }
    }
}

/// A completed password change bumps the stored `update_time`; a token that
/// still carries the previous ticker is then rejected as expired.
pub proof fn lemma_password_change_invalidates_token(
    u0: User,
    data: VoUpdateUser,
    now: i64,
    u1: User,
    pc: PasswordChange,
)
    requires
        change_pass_result(Some(u0), data, now) == Ok::<PasswordChange, CustomError>(pc),
        u1.update_time == pc.update_time,
        now != u0.update_time,
    ensures
        check_token_result(Some(u1), user_projection(u0).ticker) == Err::<User, CustomError>(
            CustomError::TokenError,
        ),
{
    assert(pc.update_time == now);
    assert(user_projection(u0).ticker == u0.update_time);
}

/// The hardware device-type catalog.
pub struct DeviceHardService;

impl DeviceHardService {
    /// The statement that fetches every hardware row.
    pub fn devices_sql(&self) -> (r: String)
        ensures
            r@ == select_text(
                "device_type"@,
                "id, hard_version, name, category, has_ble, has_finger, has_stm32, desc"@,
            ),
    {
        SqlHelper::query(
            "device_type",
            "id, hard_version, name, category, has_ble, has_finger, has_stm32, desc",
        ).sql()
    }

    /// Reduces the fetched hardware rows to their transport shapes, in order.
    pub fn devices(&self, rows: &Vec<DeviceHard>) -> (r: Vec<VoDeviceHard>)
        ensures
            r@.len() == rows@.len(),
            forall|i: int| 0 <= i < rows@.len() ==> r@[i] == hard_projection(rows@[i]),
    {
        let mut data: Vec<VoDeviceHard> = Vec::new();
        let n = rows.len();
        for i in 0..n
            invariant
                n == rows@.len(),
                data@.len() == i,
                forall|j: int| 0 <= j < i ==> data@[j] == hard_projection(rows@[j]),
        {
            data.push(VoDeviceHard::from_hard(&rows[i]));
        }
        data
    }

    /// The statement that inserts a hardware row.
    pub fn add_device_sql(&self) -> (r: String)
        ensures
            r@ == insert_text(
                "device_type"@,
                " hard_version, name, category, has_ble, has_finger, has_stm32, desc"@,
            ),
    {
        proof {
            reveal_strlit(" hard_version, name, category, has_ble, has_finger, has_stm32, desc");
        }
        SqlHelper::insert(
            "device_type",
            " hard_version, name, category, has_ble, has_finger, has_stm32, desc",
        ).sql()
    }

    /// Judges an insert by its affected-row count.
    pub fn add_device(&self, rows_affected: u64) -> (r: Result<(), CustomError>)
        ensures
            rows_affected > 0 ==> r == Ok::<(), CustomError>(()),
            rows_affected == 0 ==> r == Err::<(), CustomError>(CustomError::DataNotFound),
    {
        require_row_affected(rows_affected)
    }

    /// The statement that updates every non-key hardware column by id.
    pub fn update_device_sql(&self) -> (r: String)
        ensures
            r@ == update_text(
                "device_type"@,
                " hard_version, name, category, has_ble, has_finger, has_stm32, desc"@,
            ) + where_eq_text(" id "@, false),
    {
        proof {
            reveal_strlit(" hard_version, name, category, has_ble, has_finger, has_stm32, desc");
        }
        SqlHelper::update(
            "device_type",
            " hard_version, name, category, has_ble, has_finger, has_stm32, desc",
        ).and_where_eq(" id ").sql()
    }

    /// Judges an update by its affected-row count: updating a missing id
    /// yields `DataNotFound`, never a silent success.
    pub fn update_device(&self, rows_affected: u64) -> (r: Result<(), CustomError>)
        ensures
            rows_affected > 0 ==> r == Ok::<(), CustomError>(()),
            rows_affected == 0 ==> r == Err::<(), CustomError>(CustomError::DataNotFound),
    {
        require_row_affected(rows_affected)
    }
}

/// The software version-type catalog.
pub struct DeviceSoftService;

impl DeviceSoftService {
    /// The statement that fetches every software-type row.
    pub fn soft_versions_sql(&self) -> (r: String)
        ensures
            r@ == select_text("version_type"@, "id, name"@),
    {
        SqlHelper::query("version_type", "id, name").sql()
    }

    /// The statement that inserts a software-type row.
    pub fn add_soft_version_sql(&self) -> (r: String)
        ensures
            r@ == insert_text("version_type"@, "name"@),
    {
        proof {
            reveal_strlit("name");
        }
        SqlHelper::insert("version_type", "name").sql()
    }

    /// The statement that updates a software-type name by id.
    pub fn update_soft_version_sql(&self) -> (r: String)
        ensures
            r@ == update_text("version_type"@, "name"@) + where_eq_text(" id "@, false),
    {
        proof {
            reveal_strlit("name");
        }
        SqlHelper::update("version_type", "name").and_where_eq(" id ").sql()
    }

    /// Judges an update by its affected-row count.
    pub fn update_soft_version(&self, rows_affected: u64) -> (r: Result<(), CustomError>)
        ensures
            rows_affected > 0 ==> r == Ok::<(), CustomError>(()),
            rows_affected == 0 ==> r == Err::<(), CustomError>(CustomError::DataNotFound),
    {
        require_row_affected(rows_affected)
    }
}

/// The firmware-release catalog.
pub struct FirmService;

impl FirmService {
    /// The statement that fetches every firmware row, newest first.
    pub fn firms_sql(&self) -> (r: String)
        ensures
            r@ == select_text(
                "firm"@,
                "id, hard_version, version_name, version_format, version_type, finger_level, url, desc, update_time, rely_version_type, min, max, des_en, des_ko, des_sp"@,
            ) + order_desc_text("update_time"@),
    {
        SqlHelper::query(
            "firm",
            "id, hard_version, version_name, version_format, version_type, finger_level, url, desc, update_time, rely_version_type, min, max, des_en, des_ko, des_sp",
        ).order_desc("update_time").sql()
    }

    /// The statement that fetches the firmware rows of one hardware id,
    /// newest first.
    pub fn firms_by_device_sql(&self) -> (r: String)
        ensures
            r@ == select_text(
                "firm"@,
                "id, hard_version, version_name, version_format, version_type, finger_level, url, desc, update_time, rely_version_type, min, max, des_en, des_ko, des_sp"@,
            ) + where_eq_text("hard_version"@, false) + order_desc_text("update_time"@),
    {
        SqlHelper::query(
            "firm",
            "id, hard_version, version_name, version_format, version_type, finger_level, url, desc, update_time, rely_version_type, min, max, des_en, des_ko, des_sp",
        ).and_where_eq("hard_version").order_desc("update_time").sql()
    }

    /// Reduces the fetched firmware rows to their transport shapes, in order.
    pub fn firms(&self, rows: &Vec<Firm>) -> (r: Vec<VoFirm>)
        ensures
            r@.len() == rows@.len(),
            forall|i: int| 0 <= i < rows@.len() ==> r@[i] == firm_projection(rows@[i]),
    {
        let mut data: Vec<VoFirm> = Vec::new();
        let n = rows.len();
        for i in 0..n
            invariant
                n == rows@.len(),
                data@.len() == i,
                forall|j: int| 0 <= j < i ==> data@[j] == firm_projection(rows@[j]),
        {
            data.push(VoFirm::from_firm(&rows[i]));
        }
        data
    }

    /// The statement that deletes one firmware row by id.
    pub fn delete_firm_sql(&self) -> (r: String)
        ensures
            r@ == delete_text("firm"@) + where_eq_text("id"@, false),
    {
        SqlHelper::delete("firm").and_where_eq("id").sql()
    }

    /// Judges a delete by its affected-row count: deleting a missing id
    /// yields `DataNotFound`, never a silent success.
    pub fn delete_firm(&self, rows_affected: u64) -> (r: Result<(), CustomError>)
        ensures
            rows_affected > 0 ==> r == Ok::<(), CustomError>(()),
            rows_affected == 0 ==> r == Err::<(), CustomError>(CustomError::DataNotFound),
    {
        require_row_affected(rows_affected)
    }

    /// Plans a firmware insert: the statement text together with the payload
    /// normalized by `VoAddFirm::check_data`.
    pub fn add_firms(&self, data: VoAddFirm) -> (r: (String, VoAddFirm))
        ensures
            r.0@ == insert_text(
                "firm"@,
                " hard_version, version_name, version_format, version_type, finger_level, url, desc, update_time, rely_version_type, min, max, des_en, des_ko, des_sp"@,
            ),
            r.1 == data.checked(),
    {
        proof {
            reveal_strlit(" hard_version, version_name, version_format, version_type, finger_level, url, desc, update_time, rely_version_type, min, max, des_en, des_ko, des_sp");
        }
        let sql = SqlHelper::insert(
            "firm",
            " hard_version, version_name, version_format, version_type, finger_level, url, desc, update_time, rely_version_type, min, max, des_en, des_ko, des_sp",
        ).sql();
        (sql, data.check_data())
    }

    /// Plans a firmware update by id: the statement text together with the
    /// payload normalized by `VoUpdateFirm::check_data`.
    pub fn update_firms(&self, data: VoUpdateFirm) -> (r: (String, VoUpdateFirm))
        ensures
            r.0@ == update_text(
                "firm"@,
                " hard_version, version_name, version_format, version_type, finger_level, url, desc, update_time, rely_version_type, min, max, des_en, des_ko, des_sp"@,
            ) + where_eq_text(" id "@, false),
            r.1 == data.checked(),
    {
        proof {
            reveal_strlit(" hard_version, version_name, version_format, version_type, finger_level, url, desc, update_time, rely_version_type, min, max, des_en, des_ko, des_sp");
        }
        let sql = SqlHelper::update(
            "firm",
            " hard_version, version_name, version_format, version_type, finger_level, url, desc, update_time, rely_version_type, min, max, des_en, des_ko, des_sp",
        ).and_where_eq(" id ").sql();
        (sql, data.check_data())
    }

    /// Judges a firmware update by its affected-row count.
    pub fn update_firms_result(&self, rows_affected: u64) -> (r: Result<(), CustomError>)
        ensures
            rows_affected > 0 ==> r == Ok::<(), CustomError>(()),
            rows_affected == 0 ==> r == Err::<(), CustomError>(CustomError::DataNotFound),
    {
        require_row_affected(rows_affected)
    }
}

} // verus!
