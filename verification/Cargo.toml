[package]
name = "review_scraper"
version = "0.1.0"
edition = "2021"
publish = false

[dependencies]
json = "*"
url = "*"
curl = "*"
