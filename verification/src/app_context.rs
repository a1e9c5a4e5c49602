//! The request context: who a request acts for, taken either from a verified
//! SDKWork app context (a token) or from query parameters, and how the
//! identifiers a request names are reconciled with it.
use vstd::prelude::*;
use crate::errors::{ProblemDetail, context_conflict, problem_is, STATUS_FORBIDDEN};
use crate::text::{
    normalize_optional_text, normalized_text, opt_view, copy_str, text_eq, trim,
};
use crate::validators::{
    require_query_value, validate_subject_type, is_subject_type, fails_with, gives_text,
};

verus! {

/// Who a request acts for. `from_token` tells whether the identifiers come
/// from a verified app context (then requests must agree with them).
#[derive(Debug, Clone)]
pub struct DriveRequestContext {
    pub tenant_id: String,
    pub user_id: String,
    pub app_id: Option<String>,
    pub actor_id: String,
    pub subject_type: String,
    pub subject_id: String,
    pub from_token: bool,
}

pub open spec fn tenant_conflict_detail() -> Seq<char> {
    "request tenant does not match verified SDKWork AppContext tenant"@
}

pub open spec fn actor_conflict_detail() -> Seq<char> {
    "request operator does not match verified SDKWork AppContext actor"@
}

pub open spec fn subject_type_conflict_detail() -> Seq<char> {
    "request subjectType does not match verified SDKWork AppContext subject type"@
}

pub open spec fn subject_id_conflict_detail() -> Seq<char> {
    "request subjectId does not match verified SDKWork AppContext subject"@
}

pub open spec fn user_conflict_detail() -> Seq<char> {
    "request userId does not match verified SDKWork AppContext user"@
}

pub open spec fn app_conflict_detail() -> Seq<char> {
    "request appId does not match verified SDKWork AppContext app"@
}

/// `r` is the 403 context-conflict answer with this detail.
pub open spec fn conflicts_with<T>(r: Result<T, ProblemDetail>, detail: Seq<char>) -> bool {
    r matches Err(p) && problem_is(
        p,
        STATUS_FORBIDDEN,
        "forbidden"@,
        detail,
        "sdkwork.auth.context_conflict"@,
    )
}

/// A requested app id contradicts the app of a token.
pub open spec fn app_conflicts(from_token: bool, app_id: Option<String>, v: Seq<char>) -> bool {
    from_token && match app_id {
        Some(a) => a@ != v,
        None => false,
    }
}

/// A requested value agrees with the context: always when the context does
/// not come from a token, else when it equals the context's value.
pub open spec fn agrees(from_token: bool, requested: Seq<char>, actual: Seq<char>) -> bool {
    !from_token || requested == actual
}

/// `r` answers an identifier request: the requested (normalized) value when
/// it agrees with the context, the context's value when none is requested
/// and the context comes from a token, and otherwise `fallback` holds.
pub open spec fn resolved(
    r: Result<String, ProblemDetail>,
    requested: Option<Seq<char>>,
    from_token: bool,
    actual: Seq<char>,
    conflict: Seq<char>,
    fallback: bool,
) -> bool {
    match normalized_text(requested) {
        Some(v) => if agrees(from_token, v, actual) {
            gives_text(r, v)
        } else {
            conflicts_with(r, conflict)
        },
        None => if from_token {
            gives_text(r, actual)
        } else {
            fallback
        },
    }
}

impl DriveRequestContext {
    /// Accepts a tenant that agrees with the context.
    pub fn ensure_tenant_match(&self, value: &str) -> (r: Result<(), ProblemDetail>)
        ensures
            agrees(self.from_token, value@, self.tenant_id@) ==> r is Ok,
            !agrees(self.from_token, value@, self.tenant_id@) ==> conflicts_with(
                r,
                tenant_conflict_detail(),
            ),
    {
        if !self.from_token || text_eq(value, self.tenant_id.as_str()) {
            return Ok(());
        }
        Err(context_conflict("request tenant does not match verified SDKWork AppContext tenant"))
    }

    /// Accepts an operator that agrees with the context's actor.
    pub fn ensure_actor_match(&self, value: &str) -> (r: Result<(), ProblemDetail>)
        ensures
            agrees(self.from_token, value@, self.actor_id@) ==> r is Ok,
            !agrees(self.from_token, value@, self.actor_id@) ==> conflicts_with(
                r,
                actor_conflict_detail(),
            ),
    {
        if !self.from_token || text_eq(value, self.actor_id.as_str()) {
            return Ok(());
        }
        Err(context_conflict("request operator does not match verified SDKWork AppContext actor"))
    }

    /// Accepts a subject type that agrees with the context.
    pub fn ensure_subject_type_match(&self, value: &str) -> (r: Result<(), ProblemDetail>)
        ensures
            agrees(self.from_token, value@, self.subject_type@) ==> r is Ok,
            !agrees(self.from_token, value@, self.subject_type@) ==> conflicts_with(
                r,
                subject_type_conflict_detail(),
            ),
    {
        if !self.from_token || text_eq(value, self.subject_type.as_str()) {
            return Ok(());
        }
        Err(
            context_conflict(
                "request subjectType does not match verified SDKWork AppContext subject type",
            ),
        )
    }

    /// Accepts a subject id that agrees with the context.
    pub fn ensure_subject_id_match(&self, value: &str) -> (r: Result<(), ProblemDetail>)
        ensures
            agrees(self.from_token, value@, self.subject_id@) ==> r is Ok,
            !agrees(self.from_token, value@, self.subject_id@) ==> conflicts_with(
                r,
                subject_id_conflict_detail(),
            ),
    {
        if !self.from_token || text_eq(value, self.subject_id.as_str()) {
            return Ok(());
        }
        Err(
            context_conflict("request subjectId does not match verified SDKWork AppContext subject"),
        )
    }

    /// Accepts a user id that agrees with the context.
    pub fn ensure_user_match(&self, value: &str) -> (r: Result<(), ProblemDetail>)
        ensures
            agrees(self.from_token, value@, self.user_id@) ==> r is Ok,
            !agrees(self.from_token, value@, self.user_id@) ==> conflicts_with(
                r,
                user_conflict_detail(),
            ),
    {
        if !self.from_token || text_eq(value, self.user_id.as_str()) {
            return Ok(());
        }
        Err(context_conflict("request userId does not match verified SDKWork AppContext user"))
    }

    /// Accepts an app id, unless a token names a different app.
    pub fn ensure_app_match(&self, value: &str) -> (r: Result<(), ProblemDetail>)
        ensures
            app_conflicts(self.from_token, self.app_id, value@) ==> conflicts_with(
                r,
                app_conflict_detail(),
            ),
            !app_conflicts(self.from_token, self.app_id, value@) ==> r is Ok,
    {
        if !self.from_token {
            return Ok(());
        }
        match &self.app_id {
            None => Ok(()),
            Some(token_app_id) => {
                if text_eq(value, token_app_id.as_str()) {
                    Ok(())
                } else {
                    Err(
                        context_conflict(
                            "request appId does not match verified SDKWork AppContext app",
                        ),
                    )
                }
            },
        }
    }

    /// The tenant a request acts in.
    pub fn resolve_tenant_id(&self, requested: Option<String>) -> (r: Result<String, ProblemDetail>)
        ensures
            resolved(
                r,
                opt_view(requested),
                self.from_token,
                self.tenant_id@,
                tenant_conflict_detail(),
                fails_with(r, "tenantId"@ + " is required"@),
            ),
    {
        match normalize_optional_text(requested) {
            Some(value) => {
                self.ensure_tenant_match(value.as_str())?;
                Ok(value)
            },
            None => {
                if self.from_token {
                    Ok(self.tenant_id.clone())
                } else {
                    require_query_value(None, "tenantId")
                }
            },
        }
    }

    /// The operator a request acts as; `operator-unset` without a token.
    pub fn resolve_operator_id(&self, requested: Option<String>) -> (r: Result<
        String,
        ProblemDetail,
    >)
        ensures
            resolved(
                r,
                opt_view(requested),
                self.from_token,
                self.actor_id@,
                actor_conflict_detail(),
                gives_text(r, "operator-unset"@),
            ),
    {
        match normalize_optional_text(requested) {
            Some(value) => {
                self.ensure_actor_match(value.as_str())?;
                Ok(value)
            },
            None => {
                if self.from_token {
                    Ok(self.actor_id.clone())
                } else {
                    Ok(copy_str("operator-unset"))
                }
            },
        }
    }

    /// The app a request acts for.
    pub fn resolve_app_id(&self, requested: Option<String>) -> (r: Result<String, ProblemDetail>)
        ensures
            match normalized_text(opt_view(requested)) {
                Some(v) => if app_conflicts(self.from_token, self.app_id, v) {
                    conflicts_with(r, app_conflict_detail())
                } else {
                    gives_text(r, v)
                },
                None => if self.from_token && self.app_id is Some {
                    gives_text(r, self.app_id->0@)
                } else {
                    fails_with(r, "appId"@ + " is required"@)
                },
            },
    {
        match normalize_optional_text(requested) {
            Some(value) => {
                self.ensure_app_match(value.as_str())?;
                Ok(value)
            },
            None => {
                if self.from_token {
                    match &self.app_id {
                        Some(app_id) => Ok(app_id.clone()),
                        None => require_query_value(None, "appId"),
                    }
                } else {
                    require_query_value(None, "appId")
                }
            },
        }
    }

    /// The user an uploader request acts for, if any.
    pub fn resolve_uploader_user_id(&self, requested: Option<String>) -> (r: Result<
        Option<String>,
        ProblemDetail,
    >)
        ensures
            match normalized_text(opt_view(requested)) {
                Some(v) => if agrees(self.from_token, v, self.user_id@) {
                    r matches Ok(o) && opt_view(o) == Some(v)
                } else {
                    conflicts_with(r, user_conflict_detail())
                },
                None => if self.from_token && self.subject_type@ == "user"@ {
                    r matches Ok(o) && opt_view(o) == Some(self.user_id@)
                } else {
                    r matches Ok(o) && o is None
                },
            },
    {
        match normalize_optional_text(requested) {
            Some(value) => {
                self.ensure_user_match(value.as_str())?;
                Ok(Some(value))
            },
            None => {
                if self.from_token && text_eq(self.subject_type.as_str(), "user") {
                    Ok(Some(self.user_id.clone()))
                } else {
                    Ok(None)
                }
            },
        }
    }

    /// The subject type and id a request acts as.
    pub fn resolve_subject(
        &self,
        requested_type: Option<String>,
        requested_id: Option<String>,
    ) -> (r: Result<(String, String), ProblemDetail>)
        ensures
            subject_result(
                r,
                normalized_text(opt_view(requested_type)),
                normalized_text(opt_view(requested_id)),
                *self,
            ),
    {
        let subject_type = match normalize_optional_text(requested_type) {
            Some(value) => {
                validate_subject_type(value.as_str())?;
                self.ensure_subject_type_match(value.as_str())?;
                value
            },
            None => {
                if self.from_token {
                    self.subject_type.clone()
                } else {
                    match require_query_value(None, "subjectType") {
                        Ok(v) => v,
                        Err(p) => {
                            return Err(p);
                        },
                    }
                }
            },
        };
        let subject_id = match normalize_optional_text(requested_id) {
            Some(value) => {
                self.ensure_subject_id_match(value.as_str())?;
                value
            },
            None => {
                if self.from_token {
                    self.subject_id.clone()
                } else {
                    match require_query_value(None, "subjectId") {
                        Ok(v) => v,
                        Err(p) => {
                            return Err(p);
                        },
                    }
                }
            },
        };
        Ok((subject_type, subject_id))
    }
}

/// What `resolve_subject` answers for the normalized requested type and id.
pub open spec fn subject_result(
    r: Result<(String, String), ProblemDetail>,
    t: Option<Seq<char>>,
    id: Option<Seq<char>>,
    ctx: DriveRequestContext,
) -> bool {
    match t {
        Some(tv) => if !is_subject_type(tv) {
            fails_with(r, "subjectType is invalid"@)
        } else if !agrees(ctx.from_token, tv, ctx.subject_type@) {
            conflicts_with(r, subject_type_conflict_detail())
        } else {
            subject_id_result(r, tv, id, ctx)
        },
        None => if ctx.from_token {
            subject_id_result(r, ctx.subject_type@, id, ctx)
        } else {
            fails_with(r, "subjectType"@ + " is required"@)
        },
    }
}

/// The second half of `subject_result`, once the type `tv` is settled.
pub open spec fn subject_id_result(
    r: Result<(String, String), ProblemDetail>,
    tv: Seq<char>,
    id: Option<Seq<char>>,
    ctx: DriveRequestContext,
) -> bool {
    match id {
        Some(iv) => if agrees(ctx.from_token, iv, ctx.subject_id@) {
            r matches Ok(pair) && pair.0@ == tv && pair.1@ == iv
        } else {
            conflicts_with(r, subject_id_conflict_detail())
        },
        None => if ctx.from_token {
            r matches Ok(pair) && pair.0@ == tv && pair.1@ == ctx.subject_id@
        } else {
            fails_with(r, "subjectId"@ + " is required"@)
        },
    }
}

} // verus!
