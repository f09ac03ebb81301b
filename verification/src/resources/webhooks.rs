//! Webhooks: real-time notifications about events.

use vstd::prelude::*;
use vstd::string::StringExecFns;
use crate::request::{Method, Request};
use crate::text::{opt_text_view, IntoText};
use crate::types::event::EventType;
use crate::types::ids::WebhookId;
use crate::types::pagination::ListParams;
use crate::types::timestamp::Timestamp;

verus! {

/// The endpoints of webhooks.
#[derive(Debug, Clone, Copy, PartialEq, Eq, Structural)]
pub struct Webhooks {}

impl Webhooks {
    /// The endpoints of this resource.
    #[must_use]
    pub fn new() -> (r: Self)
        ensures
            r == (Webhooks {}),
    {
        Webhooks {}
    }

    /// Creates a webhook: `POST /webhooks`.
    pub fn create(&self, params: CreateWebhook) -> (r: Request<CreateWebhook>)
        ensures
            r.method == Method::Post,
            r.path@ == "/webhooks"@,
            r.payload == params,
    {
        Request { method: Method::Post, path: "/webhooks".to_owned(), payload: params }
    }

    /// Retrieves a webhook: `GET /webhooks/:id`.
    pub fn retrieve(&self, id: &WebhookId) -> (r: Request<()>)
        ensures
            r.method == Method::Get,
            r.path@ == "/webhooks/"@ + id@,
    {
        Request {
            method: Method::Get,
            path: "/webhooks/".to_owned().concat(id.as_str()),
            payload: (),
        }
    }

    /// Updates a webhook: `PUT /webhooks/:id`.
    pub fn update(&self, id: &WebhookId, params: UpdateWebhook) -> (r: Request<UpdateWebhook>)
        ensures
            r.method == Method::Put,
            r.path@ == "/webhooks/"@ + id@,
            r.payload == params,
    {
        Request {
            method: Method::Put,
            path: "/webhooks/".to_owned().concat(id.as_str()),
            payload: params,
        }
    }

    /// Deletes a webhook: `DELETE /webhooks/:id`.
    pub fn delete(&self, id: &WebhookId) -> (r: Request<()>)
        ensures
            r.method == Method::Delete,
            r.path@ == "/webhooks/"@ + id@,
    {
        Request {
            method: Method::Delete,
            path: "/webhooks/".to_owned().concat(id.as_str()),
            payload: (),
        }
    }

    /// Lists webhooks: `GET /webhooks`.
    pub fn list(&self, params: WebhookListParams) -> (r: Request<WebhookListParams>)
        ensures
            r.method == Method::Get,
            r.path@ == "/webhooks"@,
            r.payload == params,
    {
        Request { method: Method::Get, path: "/webhooks".to_owned(), payload: params }
    }

    /// Enables a webhook: `POST /webhooks/:id/enable`.
    pub fn enable(&self, id: &WebhookId) -> (r: Request<()>)
        ensures
            r.method == Method::Post,
            r.path@ == "/webhooks/"@ + id@ + "/enable"@,
    {
        Request {
            method: Method::Post,
            path: "/webhooks/".to_owned().concat(id.as_str()).concat("/enable"),
            payload: (),
        }
    }

    /// Disables a webhook: `POST /webhooks/:id/disable`.
    pub fn disable(&self, id: &WebhookId) -> (r: Request<()>)
        ensures
            r.method == Method::Post,
            r.path@ == "/webhooks/"@ + id@ + "/disable"@,
    {
        Request {
            method: Method::Post,
            path: "/webhooks/".to_owned().concat(id.as_str()).concat("/disable"),
            payload: (),
        }
    }
}

/// A webhook notifies your application about events in your account.
#[derive(Debug, Clone, PartialEq, Eq)]
pub struct Webhook {
    /// Unique identifier for the resource. The prefix is `wh_`.
    pub id: WebhookId,
    /// The secret key used for webhook signature verification.
    pub secret_key: Option<String>,
    /// The latest status of the webhook. A disabled webhook sends no more
    /// events.
    pub status: WebhookStatus,
    /// The URL where the webhook will send the event. To improve the security
    /// of the webhook, the URL should use HTTPS.
    pub url: String,
    /// The events the webhook will listen to.
    pub events: Vec<EventType>,
    /// An arbitrary string attached to the Webhook. You can use this to give
    /// more information about the Webhook resource.
    pub description: Option<String>,
    /// The value is `true` if the resource's mode is live or the value is
    /// `false` if the resource is in test mode.
    pub livemode: bool,
    /// The time the resource was created and measured in seconds since the
    /// Unix epoch.
    pub created_at: Timestamp,
    /// The time the resource was updated and measured in seconds since the
    /// Unix epoch.
    pub updated_at: Timestamp,
}

/// The latest status of a [`Webhook`].
#[derive(Debug, Clone, Copy, PartialEq, Eq, Hash, Structural)]
pub enum WebhookStatus {
    /// The webhook is enabled.
    Enabled,
    /// The webhook is disabled.
    Disabled,
}

/// Query parameters when creating a webhook.
#[derive(Debug, Default, Clone)]
pub struct CreateWebhook {
    /// The URL where the events of your account are sent. For security
    /// purposes, the URL must be using HTTPS protocol.
    pub url: String,
    /// The events the webhook will listen to.
    pub events: Vec<EventType>,
    /// An arbitrary string attached to the Webhook. You can use this to give
    /// more information about the Webhook resource.
    pub description: Option<String>,
}

impl CreateWebhook {
    /// Creates a new [`CreateWebhook`] instance.
    #[must_use]
    pub fn new(url: impl IntoText, events: Vec<EventType>) -> (r: Self)
        ensures
            r.url@ == url.text(),
            r.events == events,
            r.description is None,
    {
        CreateWebhook {
            url: url.into_text(),
            events,
            description: None,
        }
    }

    /// Sets the description in the query parameters.
    pub fn description(self, description: impl IntoText) -> (r: Self)
        ensures
            opt_text_view(r.description) == Some(description.text()),
            r == (CreateWebhook { description: r.description, ..self }),
    {
        let mut r = self;
        r.description = Some(description.into_text());
        r
    }
}

/// Query parameters when updating a webhook.
#[derive(Debug, Clone)]
pub struct UpdateWebhook {
    /// The URL where the webhook will send the event. For security purposes,
    /// the URL must be using HTTPS protocol.
    pub url: Option<String>,
    /// The events the webhook will listen to.
    pub events: Option<Vec<EventType>>,
    /// An arbitrary string attached to the Webhook. You can use this to give
    /// more information about the Webhook resource.
    pub description: Option<String>,
}

impl UpdateWebhook {
    /// Creates a new [`UpdateWebhook`] instance.
    #[must_use]
    pub fn new() -> (r: Self)
        ensures
            r.url is None,
            r.events is None,
            r.description is None,
    {
        UpdateWebhook {
            url: None,
            events: None,
            description: None,
        }
    }

    /// Sets the URL in the query params when updating a webhook.
    pub fn url(self, url: impl IntoText) -> (r: Self)
        ensures
            opt_text_view(r.url) == Some(url.text()),
            r == (UpdateWebhook { url: r.url, ..self }),
    {
        let mut r = self;
        r.url = Some(url.into_text());
        r
    }

    /// Sets the list of events in the query params when updating a webhook.
    /// Note that this overrides existing events to listen to in the webhook.
    pub fn events(self, events: Vec<EventType>) -> (r: Self)
        ensures
            r == (UpdateWebhook { events: Some(events), ..self }),
    {
        let mut r = self;
        r.events = Some(events);
        r
    }

    /// Sets the description in the query parameters.
    pub fn description(self, description: impl IntoText) -> (r: Self)
        ensures
            opt_text_view(r.description) == Some(description.text()),
            r == (UpdateWebhook { description: r.description, ..self }),
    {
        let mut r = self;
        r.description = Some(description.into_text());
        r
    }
}

impl Default for UpdateWebhook {
    /// The same as [`UpdateWebhook::new`].
    fn default() -> (r: Self)
        ensures
            r.url is None,
            r.events is None,
            r.description is None,
    {
        UpdateWebhook::new()
    }
}

/// Query parameters when listing webhook resources.
#[derive(Debug, Clone)]
pub struct WebhookListParams {
    /// Baseline pagination fields such as `limit`, `before`, and `after`.
    pub list_params: ListParams,
    /// You can search your webhooks via `url`.
    pub url: Option<String>,
    /// An arbitrary string attached to the Webhook. You can use this to give
    /// more information about the Webhook resource.
    pub description: Option<String>,
}

impl WebhookListParams {
    /// Creates a new [`WebhookListParams`] instance.
    #[must_use]
    pub fn new() -> (r: Self)
        ensures
            r.list_params.limit is None,
            r.list_params.after is None,
            r.list_params.before is None,
            r.url is None,
            r.description is None,
    {
        WebhookListParams {
            list_params: ListParams::new(),
            url: None,
            description: None,
        }
    }

    /// Sets the URL in the query params when listing webhooks.
    pub fn url(self, url: impl IntoText) -> (r: Self)
        ensures
            opt_text_view(r.url) == Some(url.text()),
            r == (WebhookListParams { url: r.url, ..self }),
    {
        let mut r = self;
        r.url = Some(url.into_text());
        r
    }

    /// Sets the description in the query parameters.
    pub fn description(self, description: impl IntoText) -> (r: Self)
        ensures
            opt_text_view(r.description) == Some(description.text()),
            r == (WebhookListParams { description: r.description, ..self }),
    {
        let mut r = self;
        r.description = Some(description.into_text());
        r
    }
}

impl Default for WebhookListParams {
    /// The same as [`WebhookListParams::new`].
    fn default() -> (r: Self)
        ensures
            r.list_params.limit is None,
            r.list_params.after is None,
            r.list_params.before is None,
            r.url is None,
            r.description is None,
    {
        WebhookListParams::new()
    }
}

} // verus!
