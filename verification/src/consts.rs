//! The client identity that requests to Google Play advertise.
use vstd::prelude::*;

verus! {

/// The host that serves authentication, check-in and store requests.
pub const DEFAULT_BASE_URL: &'static str = "https://android.clients.google.com";

/// The language sent with authentication requests.
pub const DEFAULT_LANGUAGE: &'static str = "en_US";

/// The country sent with authentication requests.
pub const DEFAULT_COUNTRY_CODE: &'static str = "us";

/// The user agent of the token-exchange request.
pub const DEFAULT_AUTH_USER_AGENT: &'static str = "GoogleAuth/1.4";

/// The agent name that leads the store user agent.
pub const DEFAULT_FINSKY_AGENT: &'static str = "Android-Finsky";

/// The package of the Play Store app.
pub const DEFAULT_ANDROID_VENDING: &'static str = "com.android.vending";

/// The signature of the calling package.
pub const DEFAULT_CALLER_SIG: &'static str = "38918a453d07199354f8b19af05ec6562ced5788";

/// The signature of the client package.
pub const DEFAULT_CLIENT_SIG: &'static str = "38918a453d07199354f8b19af05ec6562ced5788";

/// The service that a token exchange asks for.
pub const DEFAULT_SERVICE: &'static str = "ac2dm";

/// The Play Services version sent with the token exchange.
pub const DEFAULT_GOOGLE_PLAY_SERVICES_VERSION: &'static str = "19629032";

/// The encoded experiment targets sent with store requests.
pub const DEFAULT_DFE_TARGETS: &'static str = "CAEScFfqlIEG6gUYogFWrAISK1WDAg+hAZoCDgIU1gYEOIACFkLMAeQBnASLATlASUuyAyqCAjY5igOMBQzfA/IClwFbApUC4ANbtgKVAS7OAX8YswHFBhgDwAOPAmGEBt4OfKkB5weSB5AFASkiN68akgMaxAMSAQEBA9kBO7UBFE1KVwIDBGs3go6BBgEBAgMECQgJAQIEAQMEAQMBBQEBBAUEFQYCBgUEAwMBDwIBAgOrARwBEwMEAg0mrwESfTEcAQEKG4EBMxghChMBDwYGASI3hAEODEwXCVh/EREZA4sBYwEdFAgIIwkQcGQRDzQ2fTC2AjfVAQIBAYoBGRg2FhYFBwEqNzACJShzFFblAo0CFxpFNBzaAd0DHjIRI4sBJZcBPdwBCQGhAUd2A7kBLBVPngEECHl0UEUMtQETigHMAgUFCc0BBUUlTywdHDgBiAJ+vgKhAU0uAcYCAWQ/5ALUAw1UwQHUBpIBCdQDhgL4AY4CBQICjARbGFBGWzA1CAEMOQH+BRAOCAZywAIDyQZ2MgM3BxsoAgUEBwcHFia3AgcGTBwHBYwBAlcBggFxSGgIrAEEBw4QEqUCASsWadsHCgUCBQMD7QICA3tXCUw7ugJZAwGyAUwpIwM5AwkDBQMJA5sBCw8BNxBVVBwVKhebARkBAwsQEAgEAhESAgQJEBCZATMdzgEBBwG8AQQYKSMUkAEDAwY/CTs4/wEaAUt1AwEDAQUBAgIEAwYEDx1dB2wGeBFgTQ";

/// The encoded phenotype sent with store requests.
pub const DEFAULT_DFE_PHENOTYPE: &'static str = "H4sIAAAAAAAAAB3OO3KjMAAA0KRNuWXukBkBQkAJ2MhgAZb5u2GCwQZbCH_EJ77QHmgvtDtbv-Z9_H63zXXU0NVPB1odlyGy7751Q3CitlPDvFd8lxhz3tKeHv1r_aZmzJ9f4mR7mn2Ft6kn7-fzFwEZE1-hh5XzkcTU0jr9xfMVtZC_WChiRGyOY2UvUl1XnWrBOYT3qHqE8oFz0B3k4S-6hW1F7Pqd-pt9dfUcejOo4TLlaoiDY6yK1Yx8ya85-6TOaq2q0Q7PSdkE2DJVD0K9g9HpAj2JNc8bexoAiTM9cgnb7LTN8xw5xQCeSgQi5O7dWmdD1WIvtmdXSoXi2Uj-t8MMoqL8lmbBfBsM4ogsBtkFpJB5-Q0sJ7c9WewuVOmaUm1RfwKd70Ot1-2J8AJmIYJvf_PaXBHoxi0AVXk9e0LBjNvBLMJ7-qp33HoHvaXWmJ8bl01pNH97Kcs3VWtRSvoBzjE7W3O1_AHT6ifZVgEAAA";

/// The API level named in the store user agent.
pub const DEFAULT_API: &'static str = "3";

/// The SDK version sent with the token exchange.
pub const DEFAULT_SDK: &'static str = "28";

/// Whether the advertised device has a wide screen, in the store user agent.
pub const DEFAULT_IS_WIDE_SCREEN: &'static str = "0";

} // verus!
