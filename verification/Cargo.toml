[package]
name = "stock_report"
version = "0.1.0"
edition = "2021"
publish = false

[dependencies]
chrono = "0.4"
num-format = "0.4"
csv = "1"
dialoguer = "*"
plotters = "0.3"
prettytable-rs = "*"
tokio-test = "*"
yahoo_finance_api = "*"
