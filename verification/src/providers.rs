//! One module per provider: request parameter assembly, request
//! signing, response status checks, and conversion of provider response
//! rows into the uniform record model. The HTTP transport itself lives
//! outside the library and hands bodies back as plain values.

pub mod aliyun;
pub mod baidu;
pub mod cloudflare;
pub mod dnscom;
pub mod dnspod;
pub mod huawei;
pub mod rainyun;
pub mod tencentcloud;
