pub mod subscriber_email;
pub mod subscriber_name;
pub mod confirmation_token;
