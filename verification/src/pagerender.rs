//! What a page render needs before any template runs: the session's
//! permissions checked against the page's requirement, and, for pages
//! that carry a form, a fresh CSRF pair.

use crate::csrf::{sealed_pair_matches, CsrfError, CsrfGuard, EncryptedCsrfPair};
use crate::perms::Permissions;
use crate::session::Session;
use vstd::prelude::*;

verus! {

/// Why a page render was refused before templating.
#[derive(Clone, Copy, Debug, PartialEq, Eq, Structural)]
pub enum PageRenderError {
    /// The template engine failed.
    Tera,
    /// The database collaborator failed.
    Database,
    /// No CSRF pair could be generated.
    Csrf(CsrfError),
    /// A file could not be read.
    Io,
    /// The session lacks the page's required permissions.
    PermissionDenied,
}

/// What the templates receive about the requester.
#[derive(Debug)]
pub struct TemplateOptions {
    pub csrf_tokens: Option<(String, String)>,
    pub id: Option<i32>,
    pub perms: Permissions,
}

/// The state a page render carries: the CSRF pair to embed, if one was
/// made, and who is asking.
#[derive(Debug)]
pub struct PageRenderState {
    pub csrf_tokens: Option<(String, String)>,
    pub id: Option<i32>,
    pub perms: Permissions,
}

impl PageRenderState {
    /// Take the CSRF pair out; it is taken at most once per render.
    pub fn csrf_tokens(&mut self) -> (r: (String, String))
        requires
            old(self).csrf_tokens is Some,
        ensures
            Some(r) == old(self).csrf_tokens,
            final(self).csrf_tokens is None,
            final(self).id == old(self).id,
            final(self).perms == old(self).perms,
    {
        let r = match &self.csrf_tokens {
            Some(p) => (p.0.clone(), p.1.clone()),
            None => vstd::pervasive::unreached(),
        };
        self.csrf_tokens = None;
        r
    }

    /// Hand everything that is left to the template engine.
    pub fn template_options(&mut self) -> (r: TemplateOptions)
        ensures
            r.csrf_tokens == old(self).csrf_tokens,
            r.id == old(self).id,
            r.perms == old(self).perms,
            final(self).csrf_tokens is None,
            final(self).id == old(self).id,
            final(self).perms == old(self).perms,
    {
        let tokens = match &self.csrf_tokens {
            Some(p) => Some((p.0.clone(), p.1.clone())),
            None => None,
        };
        self.csrf_tokens = None;
        TemplateOptions { csrf_tokens: tokens, id: self.id, perms: self.perms }
    }
}

/// Build the render state for a request: the session's permissions must
/// cover the page's requirement, anonymous requests hold nothing, and a
/// form-bearing page gets a fresh CSRF pair.
pub fn page_render_state(
    guard: &CsrfGuard,
    session: Option<&Session>,
    permissions: i64,
    do_csrf: bool,
) -> (r: Result<PageRenderState, PageRenderError>)
    requires
        guard.wf(),
    ensures
        ({
            let held = match session {
                Some(s) => s.roles,
                None => Permissions(0),
            };
            let id = match session {
                Some(s) => Some(s.id),
                None => None,
            };
            if !Permissions(permissions).applies_to_spec(held) {
                r matches Err(e) && e == PageRenderError::PermissionDenied
            } else {
                match r {
                    Ok(state) => state.id == id && state.perms == held && (if do_csrf {
                        state.csrf_tokens matches Some(p) && sealed_pair_matches(
                            guard.key(),
                            p.0@,
                            p.1@,
                        )
                    } else {
                        state.csrf_tokens is None
                    }),
                    Err(e) => do_csrf && e == PageRenderError::Csrf(CsrfError::Internal),
                }
            }
        }),
{
    let held = match session {
        Some(s) => s.roles,
        None => Permissions(0),
    };
    let id = match session {
        Some(s) => Some(s.id),
        None => None,
    };
    if !Permissions(permissions).applies_to(held) {
        return Err(PageRenderError::PermissionDenied);
    }
    if do_csrf {
        match guard.generate_csrf_pair() {
            Ok(EncryptedCsrfPair { token, cookie }) => Ok(
                PageRenderState { csrf_tokens: Some((token, cookie)), id, perms: held },
            ),
            Err(e) => Err(PageRenderError::Csrf(e)),
        }
    } else {
        Ok(PageRenderState { csrf_tokens: None, id, perms: held })
    }
}

/// The one field every titled page hands its template.
pub struct Title {
    pub title: String,
}

} // verus!
